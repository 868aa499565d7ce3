//! Proof contexts and where they come from. A proof is verified elsewhere;
//! what reaches this library is the context that the verifier left behind,
//! either in a context state record or in a proof instruction of the same
//! transaction.

use vstd::prelude::*;
use crate::bytes::{field, le_u16, le_u64, lemma_array_of, read_field, read_u16, read_u64, array_of};
use crate::error::TransferError;
use crate::types::{ElGamalCiphertext, ElGamalPubkey, Pubkey};

verus! {

/// Length of the header of a context state record: the authority that may
/// close it, then one byte for the kind of proof.
pub const CONTEXT_STATE_HEADER_LEN: usize = 33;

/// What a proof can be about.
#[derive(Clone, Copy, Debug, PartialEq, Eq)]
pub enum ProofKind {
    PubkeyValidity,
    ZeroBalance,
    Withdraw,
    Transfer,
    TransferWithFee,
}

impl ProofKind {
    /// The byte that stands for the kind, in a context state record and as
    /// the first byte of a proof instruction.
    pub open spec fn spec_tag(&self) -> u8 {
        match self {
            ProofKind::ZeroBalance => 1,
            ProofKind::Withdraw => 2,
            ProofKind::Transfer => 4,
            ProofKind::TransferWithFee => 5,
            ProofKind::PubkeyValidity => 6,
        }
    }

    #[verifier::when_used_as_spec(spec_tag)]
    pub fn tag(&self) -> (tag: u8)
        ensures
            tag == self.spec_tag(),
    {
        match self {
            ProofKind::ZeroBalance => 1,
            ProofKind::Withdraw => 2,
            ProofKind::Transfer => 4,
            ProofKind::TransferWithFee => 5,
            ProofKind::PubkeyValidity => 6,
        }
    }

    /// Length of the context of a proof of this kind.
    pub open spec fn spec_context_len(&self) -> usize {
        match self {
            ProofKind::PubkeyValidity => 32,
            ProofKind::ZeroBalance => 96,
            ProofKind::Withdraw => 96,
            ProofKind::Transfer => 416,
            ProofKind::TransferWithFee => 650,
        }
    }

    #[verifier::when_used_as_spec(spec_context_len)]
    pub fn context_len(&self) -> (len: usize)
        ensures
            len == self.spec_context_len(),
    {
        match self {
            ProofKind::PubkeyValidity => 32,
            ProofKind::ZeroBalance => 96,
            ProofKind::Withdraw => 96,
            ProofKind::Transfer => 416,
            ProofKind::TransferWithFee => 650,
        }
    }

    /// Length of what a proof instruction of this kind carries after its
    /// first byte: the context, then the proof itself.
    pub open spec fn spec_proof_data_len(&self) -> usize {
        match self {
            ProofKind::PubkeyValidity => 96,
            ProofKind::ZeroBalance => 192,
            ProofKind::Withdraw => 992,
            ProofKind::Transfer => 1536,
            ProofKind::TransferWithFee => 2282,
        }
    }

    #[verifier::when_used_as_spec(spec_proof_data_len)]
    pub fn proof_data_len(&self) -> (len: usize)
        ensures
            len == self.spec_proof_data_len(),
    {
        match self {
            ProofKind::PubkeyValidity => 96,
            ProofKind::ZeroBalance => 192,
            ProofKind::Withdraw => 992,
            ProofKind::Transfer => 1536,
            ProofKind::TransferWithFee => 2282,
        }
    }
}

/// The address of the program that verifies proofs.
pub open spec fn spec_proof_program_id() -> Pubkey {
    Pubkey {
        bytes: [
            8u8, 99u8, 186u8, 141u8, 217u8, 196u8, 194u8, 251u8,
            23u8, 74u8, 5u8, 203u8, 162u8, 126u8, 42u8, 44u8,
            214u8, 35u8, 87u8, 61u8, 121u8, 233u8, 11u8, 53u8,
            181u8, 121u8, 252u8, 13u8, 0u8, 0u8, 0u8, 0u8,
        ],
    }
}

#[verifier::when_used_as_spec(spec_proof_program_id)]
pub fn proof_program_id() -> (id: Pubkey)
    ensures
        id == spec_proof_program_id(),
{
    Pubkey {
        bytes: [
            8u8, 99u8, 186u8, 141u8, 217u8, 196u8, 194u8, 251u8,
            23u8, 74u8, 5u8, 203u8, 162u8, 126u8, 42u8, 44u8,
            214u8, 35u8, 87u8, 61u8, 121u8, 233u8, 11u8, 53u8,
            181u8, 121u8, 252u8, 13u8, 0u8, 0u8, 0u8, 0u8,
        ],
    }
}

/// Where the context of a proof is to be found.
#[derive(Debug, PartialEq, Eq)]
pub enum ProofSource {
    /// A context state record that the proof program wrote earlier: the
    /// owner of the account that holds it, and the account's data.
    ContextState { owner: Pubkey, data: Vec<u8> },
    /// A proof instruction of the same transaction: the program it calls,
    /// and its data.
    Instruction { program_id: Pubkey, data: Vec<u8> },
}

impl ProofSource {
    /// The bytes in which the context lies.
    pub open spec fn bytes(&self) -> Seq<u8> {
        match self {
            ProofSource::ContextState { owner, data } => data@,
            ProofSource::Instruction { program_id, data } => data@,
        }
    }

    /// Where in `bytes()` the context of a proof of `kind` starts, or why
    /// the source holds no such context.
    ///
    /// A record must belong to the proof program, have exactly the length of
    /// a record of this kind, and carry the kind's tag behind the authority.
    /// An instruction must call the proof program, start with the kind's
    /// tag, and carry exactly the proof data of this kind.
    pub open spec fn context_offset(&self, kind: ProofKind) -> Result<int, TransferError> {
        match self {
            ProofSource::ContextState { owner, data } => {
                if *owner != proof_program_id() {
                    Err(TransferError::IncorrectProgramId)
                } else if data@.len() != CONTEXT_STATE_HEADER_LEN + kind.context_len() {
                    Err(TransferError::InvalidArgument)
                } else if data@[32] != kind.tag() {
                    Err(TransferError::InvalidInstructionData)
                } else {
                    Ok(CONTEXT_STATE_HEADER_LEN as int)
                }
            },
            ProofSource::Instruction { program_id, data } => {
                if *program_id != proof_program_id() || data@.len() == 0 || data@[0] != kind.tag()
                    || data@.len() != 1 + kind.proof_data_len() {
                    Err(TransferError::InvalidInstructionData)
                } else {
                    Ok(1)
                }
            },
        }
    }

    /// Finds the context of a proof of `kind`.
    pub fn locate(&self, kind: ProofKind) -> (found: Result<(&Vec<u8>, usize), TransferError>)
        ensures
            match found {
                Ok((data, at)) => self.context_offset(kind) == Ok::<int, TransferError>(at as int)
                    && data@ == self.bytes() && at + kind.context_len() <= data@.len(),
                Err(e) => self.context_offset(kind) == Err::<int, TransferError>(e),
            },
    {
        let program = proof_program_id();
        match self {
            ProofSource::ContextState { owner, data } => {
                if !owner.same_as(&program) {
                    Err(TransferError::IncorrectProgramId)
                } else if data.len() != CONTEXT_STATE_HEADER_LEN + kind.context_len() {
                    Err(TransferError::InvalidArgument)
                } else if data[32] != kind.tag() {
                    Err(TransferError::InvalidInstructionData)
                } else {
                    Ok((data, CONTEXT_STATE_HEADER_LEN))
                }
            },
            ProofSource::Instruction { program_id, data } => {
                if !program_id.same_as(&program) || data.len() == 0 || data[0] != kind.tag()
                    || data.len() != 1 + kind.proof_data_len() {
                    Err(TransferError::InvalidInstructionData)
                } else {
                    Ok((data, 1))
                }
            },
        }
    }
}

/// The transfer amount as the sender encrypted it: a commitment, then one
/// decryption handle each for the source, the destination and the auditor.
#[derive(Clone, Copy, Debug, PartialEq, Eq)]
pub struct TransferAmountCiphertext {
    pub bytes: [u8; 128],
}

/// The fee as the sender encrypted it: a commitment, then one decryption
/// handle each for the destination and the withdraw withheld authority.
#[derive(Clone, Copy, Debug, PartialEq, Eq)]
pub struct EncryptedFee {
    pub bytes: [u8; 96],
}

/// The ciphertext made of the commitment (the first 32 bytes of `bytes`) and
/// the 32-byte decryption handle that starts at `handle_at`.
pub open spec fn commitment_with_handle(bytes: Seq<u8>, handle_at: int) -> ElGamalCiphertext {
    ElGamalCiphertext {
        bytes: array_of::<64>(bytes.subrange(0, 32) + bytes.subrange(handle_at, handle_at + 32)),
    }
}

/// Joins the commitment with the decryption handle at `handle_at`.
pub fn join_commitment_with_handle(bytes: &[u8], handle_at: usize) -> (out: ElGamalCiphertext)
    requires
        32 <= handle_at,
        handle_at + 32 <= bytes@.len(),
    ensures
        out == commitment_with_handle(bytes@, handle_at as int),
{
    let len: usize = bytes.len();
    let mut joined = [0u8; 64];
    let mut i: usize = 0;
    while i < 32
        invariant
            i <= 32,
            32 <= handle_at,
            handle_at + 32 <= len,
            len == bytes@.len(),
            forall|k: int| 0 <= k < i ==> joined[k] == bytes@[k],
            forall|k: int| 32 <= k < 32 + i ==> joined[k] == bytes@[handle_at + k - 32],
        decreases 32 - i,
    {
        joined[i] = bytes[i];
        joined[32 + i] = bytes[handle_at + i];
        i += 1;
    }
    proof {
        let target = bytes@.subrange(0, 32) + bytes@.subrange(
            handle_at as int,
            handle_at + 32,
        );
        assert forall|k: int| 0 <= k < 64 implies joined@[k] == target[k] by {
        }
        assert(joined@ =~= target);
        lemma_array_of::<64>(joined, target);
    }
    ElGamalCiphertext { bytes: joined }
}

impl TransferAmountCiphertext {
    /// The amount as the source can decrypt it.
    pub open spec fn spec_source_ciphertext(&self) -> ElGamalCiphertext {
        commitment_with_handle(self.bytes@, 32)
    }

    /// The amount as the destination can decrypt it.
    pub open spec fn spec_destination_ciphertext(&self) -> ElGamalCiphertext {
        commitment_with_handle(self.bytes@, 64)
    }
}

impl EncryptedFee {
    /// The fee as the destination can decrypt it.
    pub open spec fn spec_destination_ciphertext(&self) -> ElGamalCiphertext {
        commitment_with_handle(self.bytes@, 32)
    }

    /// The fee as the withdraw withheld authority can decrypt it.
    pub open spec fn spec_withdraw_withheld_authority_ciphertext(&self) -> ElGamalCiphertext {
        commitment_with_handle(self.bytes@, 64)
    }
}

/// The transfer amount under the source's key: the commitment and the
/// source's decryption handle.
pub fn transfer_amount_source_ciphertext(ciphertext: &TransferAmountCiphertext) -> (out:
    ElGamalCiphertext)
    ensures
        out == ciphertext.spec_source_ciphertext(),
{
    join_commitment_with_handle(ciphertext.bytes.as_slice(), 32)
}

/// The transfer amount under the destination's key: the commitment and the
/// destination's decryption handle.
pub fn transfer_amount_destination_ciphertext(ciphertext: &TransferAmountCiphertext) -> (out:
    ElGamalCiphertext)
    ensures
        out == ciphertext.spec_destination_ciphertext(),
{
    join_commitment_with_handle(ciphertext.bytes.as_slice(), 64)
}

/// The fee under the destination's key: the commitment and the destination's
/// decryption handle.
pub fn fee_amount_destination_ciphertext(fee: &EncryptedFee) -> (out: ElGamalCiphertext)
    ensures
        out == fee.spec_destination_ciphertext(),
{
    join_commitment_with_handle(fee.bytes.as_slice(), 32)
}

/// The fee under the withdraw withheld authority's key: the commitment and
/// that authority's decryption handle.
pub fn fee_amount_withdraw_withheld_authority_ciphertext(fee: &EncryptedFee) -> (out:
    ElGamalCiphertext)
    ensures
        out == fee.spec_withdraw_withheld_authority_ciphertext(),
{
    join_commitment_with_handle(fee.bytes.as_slice(), 64)
}

/// The ElGamal key whose 32 bytes start at `at`.
pub open spec fn pubkey_at(data: Seq<u8>, at: int) -> ElGamalPubkey {
    ElGamalPubkey { bytes: field::<32>(data, at) }
}

/// The ciphertext whose 64 bytes start at `at`.
pub open spec fn ciphertext_at(data: Seq<u8>, at: int) -> ElGamalCiphertext {
    ElGamalCiphertext { bytes: field::<64>(data, at) }
}

fn read_pubkey(data: &[u8], at: usize) -> (key: ElGamalPubkey)
    requires
        at + 32 <= data@.len(),
    ensures
        key == pubkey_at(data@, at as int),
{
    ElGamalPubkey { bytes: read_field::<32>(data, at) }
}

fn read_ciphertext(data: &[u8], at: usize) -> (ciphertext: ElGamalCiphertext)
    requires
        at + 64 <= data@.len(),
    ensures
        ciphertext == ciphertext_at(data@, at as int),
{
    ElGamalCiphertext { bytes: read_field::<64>(data, at) }
}

/// What a proof of the validity of a public key attests: the key.
#[derive(Clone, Copy, Debug, PartialEq, Eq)]
pub struct PubkeyValidityProofContext {
    pub pubkey: ElGamalPubkey,
}

/// What a proof of a zero balance attests: the ciphertext that encrypts 0,
/// and the key under which it does.
#[derive(Clone, Copy, Debug, PartialEq, Eq)]
pub struct ZeroBalanceProofContext {
    pub pubkey: ElGamalPubkey,
    pub ciphertext: ElGamalCiphertext,
}

/// What a withdraw proof attests: the account's key, and its available
/// balance after the withdrawal.
#[derive(Clone, Copy, Debug, PartialEq, Eq)]
pub struct WithdrawProofContext {
    pub pubkey: ElGamalPubkey,
    pub final_ciphertext: ElGamalCiphertext,
}

/// The keys under which a transfer amount is encrypted.
#[derive(Clone, Copy, Debug, PartialEq, Eq)]
pub struct TransferPubkeys {
    pub source: ElGamalPubkey,
    pub destination: ElGamalPubkey,
    pub auditor: ElGamalPubkey,
}

/// What a transfer proof attests: the low 16 and high 32 bits of the amount,
/// the keys, and the source's available balance after the transfer.
#[derive(Clone, Copy, Debug, PartialEq, Eq)]
pub struct TransferProofContext {
    pub ciphertext_lo: TransferAmountCiphertext,
    pub ciphertext_hi: TransferAmountCiphertext,
    pub transfer_pubkeys: TransferPubkeys,
    pub new_source_ciphertext: ElGamalCiphertext,
}

/// The keys under which a transfer amount and its fee are encrypted.
#[derive(Clone, Copy, Debug, PartialEq, Eq)]
pub struct TransferWithFeePubkeys {
    pub source: ElGamalPubkey,
    pub destination: ElGamalPubkey,
    pub auditor: ElGamalPubkey,
    pub withdraw_withheld_authority: ElGamalPubkey,
}

/// The fee schedule that a proof was made for.
#[derive(Clone, Copy, Debug, PartialEq, Eq)]
pub struct FeeParameters {
    pub fee_rate_basis_points: u16,
    pub maximum_fee: u64,
}

/// What a proof of a transfer with fee attests.
#[derive(Clone, Copy, Debug, PartialEq, Eq)]
pub struct TransferWithFeeProofContext {
    pub ciphertext_lo: TransferAmountCiphertext,
    pub ciphertext_hi: TransferAmountCiphertext,
    pub transfer_with_fee_pubkeys: TransferWithFeePubkeys,
    pub new_source_ciphertext: ElGamalCiphertext,
    pub fee_ciphertext_lo: EncryptedFee,
    pub fee_ciphertext_hi: EncryptedFee,
    pub fee_parameters: FeeParameters,
}

impl PubkeyValidityProofContext {
    /// The context whose bytes start at `at`.
    pub open spec fn decoded(data: Seq<u8>, at: int) -> Self {
        PubkeyValidityProofContext { pubkey: pubkey_at(data, at) }
    }
}

impl ZeroBalanceProofContext {
    /// The context whose bytes start at `at`: the key, then the ciphertext.
    pub open spec fn decoded(data: Seq<u8>, at: int) -> Self {
        ZeroBalanceProofContext {
            pubkey: pubkey_at(data, at),
            ciphertext: ciphertext_at(data, at + 32),
        }
    }
}

impl WithdrawProofContext {
    /// The context whose bytes start at `at`: the key, then the final
    /// ciphertext.
    pub open spec fn decoded(data: Seq<u8>, at: int) -> Self {
        WithdrawProofContext {
            pubkey: pubkey_at(data, at),
            final_ciphertext: ciphertext_at(data, at + 32),
        }
    }
}

impl TransferProofContext {
    /// The context whose bytes start at `at`: both halves of the amount, the
    /// three keys, then the source's new ciphertext.
    pub open spec fn decoded(data: Seq<u8>, at: int) -> Self {
        TransferProofContext {
            ciphertext_lo: TransferAmountCiphertext { bytes: field::<128>(data, at) },
            ciphertext_hi: TransferAmountCiphertext { bytes: field::<128>(data, at + 128) },
            transfer_pubkeys: TransferPubkeys {
                source: pubkey_at(data, at + 256),
                destination: pubkey_at(data, at + 288),
                auditor: pubkey_at(data, at + 320),
            },
            new_source_ciphertext: ciphertext_at(data, at + 352),
        }
    }
}

impl TransferWithFeeProofContext {
    /// The context whose bytes start at `at`: both halves of the amount, the
    /// four keys, the source's new ciphertext, both halves of the fee, then
    /// the fee rate and the maximum fee, little-endian.
    pub open spec fn decoded(data: Seq<u8>, at: int) -> Self {
        TransferWithFeeProofContext {
            ciphertext_lo: TransferAmountCiphertext { bytes: field::<128>(data, at) },
            ciphertext_hi: TransferAmountCiphertext { bytes: field::<128>(data, at + 128) },
            transfer_with_fee_pubkeys: TransferWithFeePubkeys {
                source: pubkey_at(data, at + 256),
                destination: pubkey_at(data, at + 288),
                auditor: pubkey_at(data, at + 320),
                withdraw_withheld_authority: pubkey_at(data, at + 352),
            },
            new_source_ciphertext: ciphertext_at(data, at + 384),
            fee_ciphertext_lo: EncryptedFee { bytes: field::<96>(data, at + 448) },
            fee_ciphertext_hi: EncryptedFee { bytes: field::<96>(data, at + 544) },
            fee_parameters: FeeParameters {
                fee_rate_basis_points: le_u16(data, at + 640),
                maximum_fee: le_u64(data, at + 642),
            },
        }
    }
}

/// The context of the proof that goes with configuring an account.
pub open spec fn spec_verify_configure_account_proof(source: &ProofSource) -> Result<
    PubkeyValidityProofContext,
    TransferError,
> {
    match source.context_offset(ProofKind::PubkeyValidity) {
        Ok(at) => Ok(PubkeyValidityProofContext::decoded(source.bytes(), at)),
        Err(e) => Err(e),
    }
}

/// Resolves the context of a proof of the validity of a public key.
#[verifier::when_used_as_spec(spec_verify_configure_account_proof)]
pub fn verify_configure_account_proof(source: &ProofSource) -> (context: Result<
    PubkeyValidityProofContext,
    TransferError,
>)
    ensures
        context == spec_verify_configure_account_proof(source),
{
    match source.locate(ProofKind::PubkeyValidity) {
        Ok((data, at)) => Ok(
            PubkeyValidityProofContext { pubkey: read_pubkey(data.as_slice(), at) },
        ),
        Err(e) => Err(e),
    }
}

/// The context of the proof that goes with emptying an account.
pub open spec fn spec_verify_empty_account_proof(source: &ProofSource) -> Result<
    ZeroBalanceProofContext,
    TransferError,
> {
    match source.context_offset(ProofKind::ZeroBalance) {
        Ok(at) => Ok(ZeroBalanceProofContext::decoded(source.bytes(), at)),
        Err(e) => Err(e),
    }
}

/// Resolves the context of a proof of a zero balance.
#[verifier::when_used_as_spec(spec_verify_empty_account_proof)]
pub fn verify_empty_account_proof(source: &ProofSource) -> (context: Result<
    ZeroBalanceProofContext,
    TransferError,
>)
    ensures
        context == spec_verify_empty_account_proof(source),
{
    match source.locate(ProofKind::ZeroBalance) {
        Ok((data, at)) => Ok(
            ZeroBalanceProofContext {
                pubkey: read_pubkey(data.as_slice(), at),
                ciphertext: read_ciphertext(data.as_slice(), at + 32),
            },
        ),
        Err(e) => Err(e),
    }
}

/// The context of the proof that goes with a withdrawal.
pub open spec fn spec_verify_withdraw_proof(source: &ProofSource) -> Result<
    WithdrawProofContext,
    TransferError,
> {
    match source.context_offset(ProofKind::Withdraw) {
        Ok(at) => Ok(WithdrawProofContext::decoded(source.bytes(), at)),
        Err(e) => Err(e),
    }
}

/// Resolves the context of a withdraw proof.
#[verifier::when_used_as_spec(spec_verify_withdraw_proof)]
pub fn verify_withdraw_proof(source: &ProofSource) -> (context: Result<
    WithdrawProofContext,
    TransferError,
>)
    ensures
        context == spec_verify_withdraw_proof(source),
{
    match source.locate(ProofKind::Withdraw) {
        Ok((data, at)) => Ok(
            WithdrawProofContext {
                pubkey: read_pubkey(data.as_slice(), at),
                final_ciphertext: read_ciphertext(data.as_slice(), at + 32),
            },
        ),
        Err(e) => Err(e),
    }
}

/// The context of the proof that goes with a transfer without fee.
pub open spec fn spec_verify_transfer_proof(source: &ProofSource) -> Result<
    TransferProofContext,
    TransferError,
> {
    match source.context_offset(ProofKind::Transfer) {
        Ok(at) => Ok(TransferProofContext::decoded(source.bytes(), at)),
        Err(e) => Err(e),
    }
}

/// Resolves the context of a transfer proof.
#[verifier::when_used_as_spec(spec_verify_transfer_proof)]
pub fn verify_transfer_proof(source: &ProofSource) -> (context: Result<
    TransferProofContext,
    TransferError,
>)
    ensures
        context == spec_verify_transfer_proof(source),
{
    match source.locate(ProofKind::Transfer) {
        Ok((data, at)) => {
            let bytes = data.as_slice();
            Ok(
                TransferProofContext {
                    ciphertext_lo: TransferAmountCiphertext { bytes: read_field::<128>(bytes, at) },
                    ciphertext_hi: TransferAmountCiphertext {
                        bytes: read_field::<128>(bytes, at + 128),
                    },
                    transfer_pubkeys: TransferPubkeys {
                        source: read_pubkey(bytes, at + 256),
                        destination: read_pubkey(bytes, at + 288),
                        auditor: read_pubkey(bytes, at + 320),
                    },
                    new_source_ciphertext: read_ciphertext(bytes, at + 352),
                },
            )
        },
        Err(e) => Err(e),
    }
}

/// The context of the proof that goes with a transfer with fee.
pub open spec fn spec_verify_transfer_with_fee_proof(source: &ProofSource) -> Result<
    TransferWithFeeProofContext,
    TransferError,
> {
    match source.context_offset(ProofKind::TransferWithFee) {
        Ok(at) => Ok(TransferWithFeeProofContext::decoded(source.bytes(), at)),
        Err(e) => Err(e),
    }
}

/// Resolves the context of a proof of a transfer with fee.
#[verifier::when_used_as_spec(spec_verify_transfer_with_fee_proof)]
pub fn verify_transfer_with_fee_proof(source: &ProofSource) -> (context: Result<
    TransferWithFeeProofContext,
    TransferError,
>)
    ensures
        context == spec_verify_transfer_with_fee_proof(source),
{
    match source.locate(ProofKind::TransferWithFee) {
        Ok((data, at)) => {
            let bytes = data.as_slice();
            Ok(
                TransferWithFeeProofContext {
                    ciphertext_lo: TransferAmountCiphertext { bytes: read_field::<128>(bytes, at) },
                    ciphertext_hi: TransferAmountCiphertext {
                        bytes: read_field::<128>(bytes, at + 128),
                    },
                    transfer_with_fee_pubkeys: TransferWithFeePubkeys {
                        source: read_pubkey(bytes, at + 256),
                        destination: read_pubkey(bytes, at + 288),
                        auditor: read_pubkey(bytes, at + 320),
                        withdraw_withheld_authority: read_pubkey(bytes, at + 352),
                    },
                    new_source_ciphertext: read_ciphertext(bytes, at + 384),
                    fee_ciphertext_lo: EncryptedFee { bytes: read_field::<96>(bytes, at + 448) },
                    fee_ciphertext_hi: EncryptedFee { bytes: read_field::<96>(bytes, at + 544) },
                    fee_parameters: FeeParameters {
                        fee_rate_basis_points: read_u16(bytes, at + 640),
                        maximum_fee: read_u64(bytes, at + 642),
                    },
                },
            )
        },
        Err(e) => Err(e),
    }
}

} // verus!
