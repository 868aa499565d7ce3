//! The ciphertext algebra. The group operations themselves are the ElGamal
//! operations of `solana_zk_token_sdk`; this module gives each a name for what
//! it returns and a thin function over the library's ciphertext type.

use vstd::prelude::*;
use crate::bytes::{array_of, lemma_array_of};
use crate::types::ElGamalCiphertext;
use solana_zk_token_sdk::zk_token_elgamal::ops;
use solana_zk_token_sdk::zk_token_elgamal::pod;

verus! {

/// The bytes of `left + right`, or `None` where an operand is no pair of
/// curve points.
pub uninterp spec fn ciphertext_sum(left: Seq<u8>, right: Seq<u8>) -> Option<Seq<u8>>;

/// The bytes of `left - right`, or `None` where an operand is no pair of
/// curve points.
pub uninterp spec fn ciphertext_difference(left: Seq<u8>, right: Seq<u8>) -> Option<Seq<u8>>;

/// The bytes of `left + (lo + 2^16 * hi)`, or `None` where an operand is no
/// pair of curve points.
pub uninterp spec fn ciphertext_sum_lo_hi(left: Seq<u8>, lo: Seq<u8>, hi: Seq<u8>) -> Option<
    Seq<u8>,
>;

/// The bytes of `left - (lo + 2^16 * hi)`, or `None` where an operand is no
/// pair of curve points.
pub uninterp spec fn ciphertext_difference_lo_hi(
    left: Seq<u8>,
    lo: Seq<u8>,
    hi: Seq<u8>,
) -> Option<Seq<u8>>;

/// The bytes of the ciphertext with the plain `amount` added to what it
/// encrypts, or `None` where its commitment is no curve point.
pub uninterp spec fn ciphertext_plus_amount(ciphertext: Seq<u8>, amount: u64) -> Option<Seq<u8>>;

/// The bytes of the ciphertext with the plain `amount` taken from what it
/// encrypts, or `None` where its commitment is no curve point.
pub uninterp spec fn ciphertext_minus_amount(ciphertext: Seq<u8>, amount: u64) -> Option<Seq<u8>>;

/// `ops::add`: decompresses both operands, adds commitment to commitment and
/// handle to handle, and compresses the result; `None` where a component does
/// not decompress. The contract only names what it returns.
#[verifier::external_body]
fn sum_bytes(left: &[u8; 64], right: &[u8; 64]) -> (out: Option<[u8; 64]>)
    ensures
        bytes_of(out) == ciphertext_sum(left@, right@),
{
    ops::add(&pod::ElGamalCiphertext(*left), &pod::ElGamalCiphertext(*right)).map(|c| c.0)
}

/// `ops::subtract`: as `ops::add`, with the group's subtraction. The contract
/// only names what it returns.
#[verifier::external_body]
fn difference_bytes(left: &[u8; 64], right: &[u8; 64]) -> (out: Option<[u8; 64]>)
    ensures
        bytes_of(out) == ciphertext_difference(left@, right@),
{
    ops::subtract(&pod::ElGamalCiphertext(*left), &pod::ElGamalCiphertext(*right)).map(|c| c.0)
}

/// `ops::add_with_lo_hi`: multiplies `hi` by 2^16, adds `lo`, and adds the
/// result to `left`. The contract only names what it returns.
#[verifier::external_body]
fn sum_lo_hi_bytes(left: &[u8; 64], lo: &[u8; 64], hi: &[u8; 64]) -> (out: Option<[u8; 64]>)
    ensures
        bytes_of(out) == ciphertext_sum_lo_hi(left@, lo@, hi@),
{
    ops::add_with_lo_hi(
        &pod::ElGamalCiphertext(*left),
        &pod::ElGamalCiphertext(*lo),
        &pod::ElGamalCiphertext(*hi),
    ).map(|c| c.0)
}

/// `ops::subtract_with_lo_hi`: multiplies `hi` by 2^16, adds `lo`, and takes
/// the result from `left`. The contract only names what it returns.
#[verifier::external_body]
fn difference_lo_hi_bytes(left: &[u8; 64], lo: &[u8; 64], hi: &[u8; 64]) -> (out: Option<
    [u8; 64],
>)
    ensures
        bytes_of(out) == ciphertext_difference_lo_hi(left@, lo@, hi@),
{
    ops::subtract_with_lo_hi(
        &pod::ElGamalCiphertext(*left),
        &pod::ElGamalCiphertext(*lo),
        &pod::ElGamalCiphertext(*hi),
    ).map(|c| c.0)
}

/// `ops::add_to`: adds `amount` times the base point to the commitment and
/// keeps the handle. The contract only names what it returns.
#[verifier::external_body]
fn plus_amount_bytes(ciphertext: &[u8; 64], amount: u64) -> (out: Option<[u8; 64]>)
    ensures
        bytes_of(out) == ciphertext_plus_amount(ciphertext@, amount),
{
    ops::add_to(&pod::ElGamalCiphertext(*ciphertext), amount).map(|c| c.0)
}

/// `ops::subtract_from`: takes `amount` times the base point from the
/// commitment and keeps the handle. The contract only names what it returns.
#[verifier::external_body]
fn minus_amount_bytes(ciphertext: &[u8; 64], amount: u64) -> (out: Option<[u8; 64]>)
    ensures
        bytes_of(out) == ciphertext_minus_amount(ciphertext@, amount),
{
    ops::subtract_from(&pod::ElGamalCiphertext(*ciphertext), amount).map(|c| c.0)
}

/// The bytes that an operation returned, if it returned any.
pub open spec fn bytes_of(out: Option<[u8; 64]>) -> Option<Seq<u8>> {
    match out {
        Some(bytes) => Some(bytes@),
        None => None,
    }
}

/// The ciphertext that the bytes of an operation's result make up.
pub open spec fn wrap(bytes: Option<Seq<u8>>) -> Option<ElGamalCiphertext> {
    match bytes {
        Some(bytes) => Some(ElGamalCiphertext { bytes: array_of::<64>(bytes) }),
        None => None,
    }
}

fn wrap_bytes(out: Option<[u8; 64]>) -> (ciphertext: Option<ElGamalCiphertext>)
    ensures
        ciphertext == wrap(bytes_of(out)),
{
    match out {
        Some(bytes) => {
            proof {
                lemma_array_of::<64>(bytes, bytes@);
            }
            Some(ElGamalCiphertext { bytes })
        },
        None => None,
    }
}

/// `left + right`.
pub open spec fn sum(left: ElGamalCiphertext, right: ElGamalCiphertext) -> Option<
    ElGamalCiphertext,
> {
    wrap(ciphertext_sum(left@, right@))
}

/// `left - right`.
pub open spec fn difference(left: ElGamalCiphertext, right: ElGamalCiphertext) -> Option<
    ElGamalCiphertext,
> {
    wrap(ciphertext_difference(left@, right@))
}

/// `left + (lo + 2^16 * hi)`.
pub open spec fn sum_lo_hi(
    left: ElGamalCiphertext,
    lo: ElGamalCiphertext,
    hi: ElGamalCiphertext,
) -> Option<ElGamalCiphertext> {
    wrap(ciphertext_sum_lo_hi(left@, lo@, hi@))
}

/// `left - (lo + 2^16 * hi)`.
pub open spec fn difference_lo_hi(
    left: ElGamalCiphertext,
    lo: ElGamalCiphertext,
    hi: ElGamalCiphertext,
) -> Option<ElGamalCiphertext> {
    wrap(ciphertext_difference_lo_hi(left@, lo@, hi@))
}

/// The ciphertext with a plain amount added.
pub open spec fn plus_amount(ciphertext: ElGamalCiphertext, amount: u64) -> Option<
    ElGamalCiphertext,
> {
    wrap(ciphertext_plus_amount(ciphertext@, amount))
}

/// The ciphertext with a plain amount taken away.
pub open spec fn minus_amount(ciphertext: ElGamalCiphertext, amount: u64) -> Option<
    ElGamalCiphertext,
> {
    wrap(ciphertext_minus_amount(ciphertext@, amount))
}

/// Adds two ciphertexts.
pub fn add(left: &ElGamalCiphertext, right: &ElGamalCiphertext) -> (out: Option<
    ElGamalCiphertext,
>)
    ensures
        out == sum(*left, *right),
{
    wrap_bytes(sum_bytes(&left.bytes, &right.bytes))
}

/// Subtracts one ciphertext from another.
pub fn subtract(left: &ElGamalCiphertext, right: &ElGamalCiphertext) -> (out: Option<
    ElGamalCiphertext,
>)
    ensures
        out == difference(*left, *right),
{
    wrap_bytes(difference_bytes(&left.bytes, &right.bytes))
}

/// Adds an amount given as its low 16 and high 32 bits, each encrypted.
pub fn add_with_lo_hi(
    left: &ElGamalCiphertext,
    lo: &ElGamalCiphertext,
    hi: &ElGamalCiphertext,
) -> (out: Option<ElGamalCiphertext>)
    ensures
        out == sum_lo_hi(*left, *lo, *hi),
{
    wrap_bytes(sum_lo_hi_bytes(&left.bytes, &lo.bytes, &hi.bytes))
}

/// Subtracts an amount given as its low 16 and high 32 bits, each encrypted.
pub fn subtract_with_lo_hi(
    left: &ElGamalCiphertext,
    lo: &ElGamalCiphertext,
    hi: &ElGamalCiphertext,
) -> (out: Option<ElGamalCiphertext>)
    ensures
        out == difference_lo_hi(*left, *lo, *hi),
{
    wrap_bytes(difference_lo_hi_bytes(&left.bytes, &lo.bytes, &hi.bytes))
}

/// Adds a plain amount to a ciphertext.
pub fn add_to(ciphertext: &ElGamalCiphertext, amount: u64) -> (out: Option<ElGamalCiphertext>)
    ensures
        out == plus_amount(*ciphertext, amount),
{
    wrap_bytes(plus_amount_bytes(&ciphertext.bytes, amount))
}

/// Subtracts a plain amount from a ciphertext.
pub fn subtract_from(ciphertext: &ElGamalCiphertext, amount: u64) -> (out: Option<
    ElGamalCiphertext,
>)
    ensures
        out == minus_amount(*ciphertext, amount),
{
    wrap_bytes(minus_amount_bytes(&ciphertext.bytes, amount))
}

} // verus!
