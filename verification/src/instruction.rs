//! The instructions as bytes: one byte that names the instruction, then its
//! fixed-width payload.

use vstd::prelude::*;
use crate::bytes::{field, le_i64, le_u64, read_field, read_i64, read_u64};
use crate::error::TransferError;
use crate::types::{DecryptableBalance, ElGamalPubkey, Pubkey};

verus! {

/// A decoded instruction.
#[derive(Clone, Copy, Debug, PartialEq, Eq)]
pub enum ConfidentialTransferInstruction {
    InitializeMint {
        authority: Option<Pubkey>,
        auto_approve_new_accounts: bool,
        auditor_elgamal_pubkey: Option<ElGamalPubkey>,
    },
    UpdateMint { auto_approve_new_accounts: bool, auditor_elgamal_pubkey: Option<ElGamalPubkey> },
    ConfigureAccount {
        decryptable_zero_balance: DecryptableBalance,
        maximum_pending_balance_credit_counter: u64,
        proof_instruction_offset: i64,
    },
    ApproveAccount,
    EmptyAccount { proof_instruction_offset: i64 },
    Deposit { amount: u64, decimals: u8 },
    Withdraw {
        amount: u64,
        decimals: u8,
        new_decryptable_available_balance: DecryptableBalance,
        proof_instruction_offset: i64,
    },
    Transfer {
        new_source_decryptable_available_balance: DecryptableBalance,
        proof_instruction_offset: i64,
    },
    ApplyPendingBalance {
        expected_pending_balance_credit_counter: u64,
        new_decryptable_available_balance: DecryptableBalance,
    },
    EnableConfidentialCredits,
    DisableConfidentialCredits,
    EnableNonConfidentialCredits,
    DisableNonConfidentialCredits,
}

/// The byte that names `InitializeMint`.
pub const TAG_INITIALIZE_MINT: u8 = 0;

/// The byte that names `UpdateMint`.
pub const TAG_UPDATE_MINT: u8 = 1;

/// The byte that names `ConfigureAccount`.
pub const TAG_CONFIGURE_ACCOUNT: u8 = 2;

/// The byte that names `ApproveAccount`.
pub const TAG_APPROVE_ACCOUNT: u8 = 3;

/// The byte that names `EmptyAccount`.
pub const TAG_EMPTY_ACCOUNT: u8 = 4;

/// The byte that names `Deposit`.
pub const TAG_DEPOSIT: u8 = 5;

/// The byte that names `Withdraw`.
pub const TAG_WITHDRAW: u8 = 6;

/// The byte that names `Transfer`.
pub const TAG_TRANSFER: u8 = 7;

/// The byte that names `ApplyPendingBalance`.
pub const TAG_APPLY_PENDING_BALANCE: u8 = 8;

/// The byte that names `EnableConfidentialCredits`.
pub const TAG_ENABLE_CONFIDENTIAL_CREDITS: u8 = 9;

/// The byte that names `DisableConfidentialCredits`.
pub const TAG_DISABLE_CONFIDENTIAL_CREDITS: u8 = 10;

/// The byte that names `EnableNonConfidentialCredits`.
pub const TAG_ENABLE_NON_CONFIDENTIAL_CREDITS: u8 = 11;

/// The byte that names `DisableNonConfidentialCredits`.
pub const TAG_DISABLE_NON_CONFIDENTIAL_CREDITS: u8 = 12;

/// Length of an optional key: one byte that says whether the key is there,
/// then room for the key.
pub const OPTIONAL_KEY_LEN: usize = 33;

/// The length that the payload of the instruction named by `tag` must have;
/// `None` where the instruction reads no payload.
pub open spec fn spec_payload_len(tag: u8) -> Option<usize> {
    if tag == TAG_INITIALIZE_MINT {
        Some(67)
    } else if tag == TAG_UPDATE_MINT {
        Some(34)
    } else if tag == TAG_CONFIGURE_ACCOUNT {
        Some(52)
    } else if tag == TAG_EMPTY_ACCOUNT {
        Some(8)
    } else if tag == TAG_DEPOSIT {
        Some(9)
    } else if tag == TAG_WITHDRAW {
        Some(53)
    } else if tag == TAG_TRANSFER {
        Some(44)
    } else if tag == TAG_APPLY_PENDING_BALANCE {
        Some(44)
    } else {
        None
    }
}

/// The payload length of the instruction named by `tag`.
#[verifier::when_used_as_spec(spec_payload_len)]
pub fn payload_len(tag: u8) -> (len: Option<usize>)
    ensures
        len == spec_payload_len(tag),
{
    if tag == TAG_INITIALIZE_MINT {
        Some(67)
    } else if tag == TAG_UPDATE_MINT {
        Some(34)
    } else if tag == TAG_CONFIGURE_ACCOUNT {
        Some(52)
    } else if tag == TAG_EMPTY_ACCOUNT {
        Some(8)
    } else if tag == TAG_DEPOSIT {
        Some(9)
    } else if tag == TAG_WITHDRAW {
        Some(53)
    } else if tag == TAG_TRANSFER {
        Some(44)
    } else if tag == TAG_APPLY_PENDING_BALANCE {
        Some(44)
    } else {
        None
    }
}

/// The optional 32-byte key at `at`: a first byte of 0 says that there is
/// none, a first byte of 1 that the key follows; any other first byte is
/// malformed.
pub open spec fn optional_key_at(data: Seq<u8>, at: int) -> Result<Option<[u8; 32]>, TransferError> {
    if data[at] == 0 {
        Ok(None)
    } else if data[at] == 1 {
        Ok(Some(field::<32>(data, at + 1)))
    } else {
        Err(TransferError::InvalidInstructionData)
    }
}

/// Reads an optional 32-byte key.
pub fn read_optional_key(data: &[u8], at: usize) -> (key: Result<Option<[u8; 32]>, TransferError>)
    requires
        at + OPTIONAL_KEY_LEN <= data@.len(),
    ensures
        key == optional_key_at(data@, at as int),
{
    if data[at] == 0 {
        Ok(None)
    } else if data[at] == 1 {
        Ok(Some(read_field::<32>(data, at + 1)))
    } else {
        Err(TransferError::InvalidInstructionData)
    }
}

/// The account address that an optional key stands for.
pub open spec fn as_pubkey(key: Option<[u8; 32]>) -> Option<Pubkey> {
    match key {
        Some(bytes) => Some(Pubkey { bytes }),
        None => None,
    }
}

/// The ElGamal key that an optional key stands for.
pub open spec fn as_elgamal_pubkey(key: Option<[u8; 32]>) -> Option<ElGamalPubkey> {
    match key {
        Some(bytes) => Some(ElGamalPubkey { bytes }),
        None => None,
    }
}

fn to_pubkey(key: Option<[u8; 32]>) -> (out: Option<Pubkey>)
    ensures
        out == as_pubkey(key),
{
    match key {
        Some(bytes) => Some(Pubkey { bytes }),
        None => None,
    }
}

fn to_elgamal_pubkey(key: Option<[u8; 32]>) -> (out: Option<ElGamalPubkey>)
    ensures
        out == as_elgamal_pubkey(key),
{
    match key {
        Some(bytes) => Some(ElGamalPubkey { bytes }),
        None => None,
    }
}

/// The instruction that `input` encodes, its first byte naming it. An
/// instruction with a payload must have exactly the payload's length; one
/// without payload is known by its first byte alone. Amounts, counters and
/// the signed offset of the proof instruction are little-endian on 64 bits;
/// decimals are one byte; a flag is one byte, set unless 0.
pub open spec fn spec_decode_instruction(input: Seq<u8>) -> Result<
    ConfidentialTransferInstruction,
    TransferError,
> {
    if input.len() == 0 || input[0] > TAG_DISABLE_NON_CONFIDENTIAL_CREDITS {
        Err(TransferError::InvalidInstructionData)
    } else if spec_payload_len(input[0]) matches Some(len) && input.len() != len + 1 {
        Err(TransferError::InvalidInstructionData)
    } else if input[0] == TAG_INITIALIZE_MINT {
        match (optional_key_at(input, 1), optional_key_at(input, 35)) {
            (Err(e), _) => Err(e),
            (Ok(_), Err(e)) => Err(e),
            (Ok(authority), Ok(auditor)) => Ok(
                ConfidentialTransferInstruction::InitializeMint {
                    authority: as_pubkey(authority),
                    auto_approve_new_accounts: input[34] != 0,
                    auditor_elgamal_pubkey: as_elgamal_pubkey(auditor),
                },
            ),
        }
    } else if input[0] == TAG_UPDATE_MINT {
        match optional_key_at(input, 2) {
            Err(e) => Err(e),
            Ok(auditor) => Ok(
                ConfidentialTransferInstruction::UpdateMint {
                    auto_approve_new_accounts: input[1] != 0,
                    auditor_elgamal_pubkey: as_elgamal_pubkey(auditor),
                },
            ),
        }
    } else if input[0] == TAG_CONFIGURE_ACCOUNT {
        Ok(
            ConfidentialTransferInstruction::ConfigureAccount {
                decryptable_zero_balance: DecryptableBalance { bytes: field::<36>(input, 1) },
                maximum_pending_balance_credit_counter: le_u64(input, 37),
                proof_instruction_offset: le_i64(input, 45),
            },
        )
    } else if input[0] == TAG_APPROVE_ACCOUNT {
        Ok(ConfidentialTransferInstruction::ApproveAccount)
    } else if input[0] == TAG_EMPTY_ACCOUNT {
        Ok(
            ConfidentialTransferInstruction::EmptyAccount {
                proof_instruction_offset: le_i64(input, 1),
            },
        )
    } else if input[0] == TAG_DEPOSIT {
        Ok(ConfidentialTransferInstruction::Deposit { amount: le_u64(input, 1), decimals: input[9] })
    } else if input[0] == TAG_WITHDRAW {
        Ok(
            ConfidentialTransferInstruction::Withdraw {
                amount: le_u64(input, 1),
                decimals: input[9],
                new_decryptable_available_balance: DecryptableBalance {
                    bytes: field::<36>(input, 10),
                },
                proof_instruction_offset: le_i64(input, 46),
            },
        )
    } else if input[0] == TAG_TRANSFER {
        Ok(
            ConfidentialTransferInstruction::Transfer {
                new_source_decryptable_available_balance: DecryptableBalance {
                    bytes: field::<36>(input, 1),
                },
                proof_instruction_offset: le_i64(input, 37),
            },
        )
    } else if input[0] == TAG_APPLY_PENDING_BALANCE {
        Ok(
            ConfidentialTransferInstruction::ApplyPendingBalance {
                expected_pending_balance_credit_counter: le_u64(input, 1),
                new_decryptable_available_balance: DecryptableBalance {
                    bytes: field::<36>(input, 9),
                },
            },
        )
    } else if input[0] == TAG_ENABLE_CONFIDENTIAL_CREDITS {
        Ok(ConfidentialTransferInstruction::EnableConfidentialCredits)
    } else if input[0] == TAG_DISABLE_CONFIDENTIAL_CREDITS {
        Ok(ConfidentialTransferInstruction::DisableConfidentialCredits)
    } else if input[0] == TAG_ENABLE_NON_CONFIDENTIAL_CREDITS {
        Ok(ConfidentialTransferInstruction::EnableNonConfidentialCredits)
    } else {
        Ok(ConfidentialTransferInstruction::DisableNonConfidentialCredits)
    }
}

/// Decodes an instruction.
pub fn decode_instruction(input: &[u8]) -> (decoded: Result<
    ConfidentialTransferInstruction,
    TransferError,
>)
    ensures
        decoded == spec_decode_instruction(input@),
{
    if input.len() == 0 {
        return Err(TransferError::InvalidInstructionData);
    }
    let tag = input[0];
    if tag > TAG_DISABLE_NON_CONFIDENTIAL_CREDITS {
        return Err(TransferError::InvalidInstructionData);
    }
    if let Some(len) = payload_len(tag) {
        if input.len() != len + 1 {
            return Err(TransferError::InvalidInstructionData);
        }
    }
    if tag == TAG_INITIALIZE_MINT {
        let authority = read_optional_key(input, 1)?;
        let auditor = read_optional_key(input, 35)?;
        Ok(
            ConfidentialTransferInstruction::InitializeMint {
                authority: to_pubkey(authority),
                auto_approve_new_accounts: input[34] != 0,
                auditor_elgamal_pubkey: to_elgamal_pubkey(auditor),
            },
        )
    } else if tag == TAG_UPDATE_MINT {
        let auditor = read_optional_key(input, 2)?;
        Ok(
            ConfidentialTransferInstruction::UpdateMint {
                auto_approve_new_accounts: input[1] != 0,
                auditor_elgamal_pubkey: to_elgamal_pubkey(auditor),
            },
        )
    } else if tag == TAG_CONFIGURE_ACCOUNT {
        Ok(
            ConfidentialTransferInstruction::ConfigureAccount {
                decryptable_zero_balance: DecryptableBalance { bytes: read_field::<36>(input, 1) },
                maximum_pending_balance_credit_counter: read_u64(input, 37),
                proof_instruction_offset: read_i64(input, 45),
            },
        )
    } else if tag == TAG_APPROVE_ACCOUNT {
        Ok(ConfidentialTransferInstruction::ApproveAccount)
    } else if tag == TAG_EMPTY_ACCOUNT {
        Ok(
            ConfidentialTransferInstruction::EmptyAccount {
                proof_instruction_offset: read_i64(input, 1),
            },
        )
    } else if tag == TAG_DEPOSIT {
        Ok(ConfidentialTransferInstruction::Deposit { amount: read_u64(input, 1), decimals: input[9] })
    } else if tag == TAG_WITHDRAW {
        Ok(
            ConfidentialTransferInstruction::Withdraw {
                amount: read_u64(input, 1),
                decimals: input[9],
                new_decryptable_available_balance: DecryptableBalance {
                    bytes: read_field::<36>(input, 10),
                },
                proof_instruction_offset: read_i64(input, 46),
            },
        )
    } else if tag == TAG_TRANSFER {
        Ok(
            ConfidentialTransferInstruction::Transfer {
                new_source_decryptable_available_balance: DecryptableBalance {
                    bytes: read_field::<36>(input, 1),
                },
                proof_instruction_offset: read_i64(input, 37),
            },
        )
    } else if tag == TAG_APPLY_PENDING_BALANCE {
        Ok(
            ConfidentialTransferInstruction::ApplyPendingBalance {
                expected_pending_balance_credit_counter: read_u64(input, 1),
                new_decryptable_available_balance: DecryptableBalance {
                    bytes: read_field::<36>(input, 9),
                },
            },
        )
    } else if tag == TAG_ENABLE_CONFIDENTIAL_CREDITS {
        Ok(ConfidentialTransferInstruction::EnableConfidentialCredits)
    } else if tag == TAG_DISABLE_CONFIDENTIAL_CREDITS {
        Ok(ConfidentialTransferInstruction::DisableConfidentialCredits)
    } else if tag == TAG_ENABLE_NON_CONFIDENTIAL_CREDITS {
        Ok(ConfidentialTransferInstruction::EnableNonConfidentialCredits)
    } else {
        Ok(ConfidentialTransferInstruction::DisableNonConfidentialCredits)
    }
}

} // verus!
