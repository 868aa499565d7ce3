//! The fixed-width values that accounts and proofs are made of.

use vstd::prelude::*;

verus! {

/// Whether two byte arrays hold the same bytes.
pub fn bytes_equal<const N: usize>(left: &[u8; N], right: &[u8; N]) -> (same: bool)
    ensures
        same == (*left == *right),
{
    let mut i: usize = 0;
    while i < N
        invariant
            i <= N,
            forall|k: int| 0 <= k < i ==> left[k] == right[k],
        decreases N - i,
    {
        if left[i] != right[i] {
            return false;
        }
        i += 1;
    }
    assert(*left =~= *right);
    true
}

/// Whether every byte of the array is zero.
pub fn bytes_all_zero<const N: usize>(bytes: &[u8; N]) -> (zero: bool)
    ensures
        zero == (forall|k: int| 0 <= k < N ==> bytes[k] == 0u8),
{
    let mut i: usize = 0;
    while i < N
        invariant
            i <= N,
            forall|k: int| 0 <= k < i ==> bytes[k] == 0u8,
        decreases N - i,
    {
        if bytes[i] != 0 {
            return false;
        }
        i += 1;
    }
    true
}

/// The address of an account.
#[derive(Clone, Copy, Debug, PartialEq, Eq)]
pub struct Pubkey {
    pub bytes: [u8; 32],
}

impl View for Pubkey {
    type V = Seq<u8>;

    /// The 32 bytes of the address.
    open spec fn view(&self) -> Seq<u8> {
        self.bytes@
    }
}

impl Pubkey {
    pub fn same_as(&self, other: &Pubkey) -> (same: bool)
        ensures
            same == (*self == *other),
    {
        bytes_equal(&self.bytes, &other.bytes)
    }
}

/// A public ElGamal encryption key.
#[derive(Clone, Copy, Debug, PartialEq, Eq)]
pub struct ElGamalPubkey {
    pub bytes: [u8; 32],
}

impl View for ElGamalPubkey {
    type V = Seq<u8>;

    /// The 32 bytes of the key.
    open spec fn view(&self) -> Seq<u8> {
        self.bytes@
    }
}

impl ElGamalPubkey {
    /// The all-zero key, which stands for "no key" where a key is optional.
    pub open spec fn spec_zeroed() -> ElGamalPubkey {
        ElGamalPubkey { bytes: vstd::array::spec_array_fill_for_copy_type::<u8, 32>(0u8) }
    }

    #[verifier::when_used_as_spec(spec_zeroed)]
    pub fn zeroed() -> (zero: ElGamalPubkey)
        ensures
            zero == Self::spec_zeroed(),
    {
        ElGamalPubkey { bytes: [0u8; 32] }
    }

    pub fn same_as(&self, other: &ElGamalPubkey) -> (same: bool)
        ensures
            same == (*self == *other),
    {
        bytes_equal(&self.bytes, &other.bytes)
    }
}

/// An ElGamal ciphertext: 32 bytes of commitment, then 32 bytes of decryption
/// handle. Ciphertexts are compared byte for byte, never by what they encrypt.
#[derive(Clone, Copy, Debug, PartialEq, Eq)]
pub struct ElGamalCiphertext {
    pub bytes: [u8; 64],
}

/// A balance as an account stores it.
pub type EncryptedBalance = ElGamalCiphertext;

/// The withheld fees as an account stores them.
pub type EncryptedWithheldAmount = ElGamalCiphertext;

impl View for ElGamalCiphertext {
    type V = Seq<u8>;

    /// The 64 bytes of the ciphertext.
    open spec fn view(&self) -> Seq<u8> {
        self.bytes@
    }
}

impl ElGamalCiphertext {
    /// The all-zero ciphertext, the canonical encryption of 0 under every key.
    pub open spec fn spec_zeroed() -> ElGamalCiphertext {
        ElGamalCiphertext { bytes: vstd::array::spec_array_fill_for_copy_type::<u8, 64>(0u8) }
    }

    #[verifier::when_used_as_spec(spec_zeroed)]
    pub fn zeroed() -> (zero: ElGamalCiphertext)
        ensures
            zero == Self::spec_zeroed(),
    {
        ElGamalCiphertext { bytes: [0u8; 64] }
    }

    pub fn same_as(&self, other: &ElGamalCiphertext) -> (same: bool)
        ensures
            same == (*self == *other),
    {
        bytes_equal(&self.bytes, &other.bytes)
    }

    /// Whether this is the all-zero ciphertext.
    pub fn is_zero(&self) -> (zero: bool)
        ensures
            zero == (*self == Self::zeroed()),
    {
        let zero = bytes_all_zero(&self.bytes);
        proof {
            if zero {
                assert(self.bytes =~= Self::zeroed().bytes);
            } else {
                let k = choose|k: int| 0 <= k < 64 && self.bytes[k] != 0u8;
                assert(Self::zeroed().bytes[k] == 0u8);
            }
        }
        zero
    }
}

/// A balance encrypted under the owner's symmetric key, kept for the owner's
/// client. No decision of this library reads it.
#[derive(Clone, Copy, Debug, PartialEq, Eq)]
pub struct DecryptableBalance {
    pub bytes: [u8; 36],
}

impl View for DecryptableBalance {
    type V = Seq<u8>;

    /// The 36 bytes of the ciphertext.
    open spec fn view(&self) -> Seq<u8> {
        self.bytes@
    }
}

} // verus!
