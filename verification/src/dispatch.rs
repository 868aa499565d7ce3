//! From an instruction's bytes and what the host loaded for it to what the
//! host is to write back.

use vstd::prelude::*;
use crate::account::{
    allow_confidential_credits_outcome, allow_non_confidential_credits_outcome,
    approve_account_outcome, configure_account_outcome, empty_account_outcome,
    process_allow_confidential_credits, process_allow_non_confidential_credits,
    process_approve_account, process_configure_account, process_empty_account,
};
use crate::context::{verify_withdraw_proof, ProofSource};
use crate::error::TransferError;
use crate::instruction::{
    decode_instruction, spec_decode_instruction, ConfidentialTransferInstruction,
};
use crate::mint::{
    initialize_mint_outcome, process_initialize_mint, process_update_mint, update_mint_outcome,
};
use crate::processor::{
    apply_pending_balance_outcome, deposit_outcome, plaintext_gate, process_apply_pending_balance,
    process_deposit, process_withdraw, reaches_native_account, withdraw_outcome,
    withdraw_reaches_native_account, Signer,
};
use crate::state::{Mint, TokenAccount};
use crate::transfer::{process_transfer, transfer_outcome};

verus! {

/// What the host loaded for one instruction. An account that the
/// instruction does not name is `None`.
#[derive(Debug, PartialEq, Eq)]
pub struct Host {
    pub mint: Option<Mint>,
    /// The token account that the instruction is about; for a transfer, the
    /// source.
    pub account: Option<TokenAccount>,
    /// The destination of a transfer.
    pub destination: Option<TokenAccount>,
    /// Where the proof's context is, for an instruction that needs one.
    pub proof_source: Option<ProofSource>,
    /// The account offered as the mint's authority.
    pub authority: Signer,
    /// Whether the signers satisfy the token account's owner, or why not.
    pub owner_check: Result<(), TransferError>,
    /// Whether the instruction just before this one is a memo.
    pub previous_is_memo: bool,
    /// The current epoch.
    pub epoch: u64,
    /// Whether the ciphertext operations can be used. Without them no
    /// instruction that computes on ciphertexts is accepted.
    pub ciphertext_algebra_available: bool,
}

/// What the host is to write back.
#[derive(Clone, Copy, Debug, PartialEq, Eq)]
pub enum Outcome {
    Mint(Mint),
    Account(TokenAccount),
    Transfer { source: TokenAccount, destination: TokenAccount },
}

/// An account's new state as an outcome.
pub open spec fn for_account(after: Result<TokenAccount, TransferError>) -> Result<
    Outcome,
    TransferError,
> {
    match after {
        Ok(account) => Ok(Outcome::Account(account)),
        Err(e) => Err(e),
    }
}

/// A mint's new state as an outcome.
pub open spec fn for_mint(after: Result<Mint, TransferError>) -> Result<Outcome, TransferError> {
    match after {
        Ok(mint) => Ok(Outcome::Mint(mint)),
        Err(e) => Err(e),
    }
}

/// The new states of a transfer's two accounts as an outcome.
pub open spec fn for_transfer(after: Result<(TokenAccount, TokenAccount), TransferError>) -> Result<
    Outcome,
    TransferError,
> {
    match after {
        Ok((source, destination)) => Ok(Outcome::Transfer { source, destination }),
        Err(e) => Err(e),
    }
}

/// An offset of 0 says that the proof's context lies in a context state
/// record; any other offset points to a proof instruction of the same
/// transaction.
pub open spec fn source_agrees_with_offset(source: &ProofSource, offset: i64) -> bool {
    (offset == 0) == (source is ContextState)
}

/// The source of the proof's context for an instruction with the given
/// offset, as far as the host supplied a fitting one.
pub open spec fn spec_proof_source_for(host: &Host, offset: i64) -> Result<(), TransferError> {
    match host.proof_source {
        None => Err(TransferError::NotEnoughAccountKeys),
        Some(source) => if source_agrees_with_offset(&source, offset) {
            Ok(())
        } else {
            Err(TransferError::InvalidArgument)
        },
    }
}

/// Picks the source of the proof's context.
pub fn proof_source_for(host: &Host, offset: i64) -> (found: Result<&ProofSource, TransferError>)
    ensures
        match found {
            Ok(source) => spec_proof_source_for(host, offset) is Ok && host.proof_source == Some(
                *source,
            ),
            Err(e) => spec_proof_source_for(host, offset) == Err::<(), TransferError>(e),
        },
{
    match &host.proof_source {
        None => Err(TransferError::NotEnoughAccountKeys),
        Some(source) => {
            let is_record = match source {
                ProofSource::ContextState { .. } => true,
                ProofSource::Instruction { .. } => false,
            };
            if (offset == 0) == is_record {
                Ok(source)
            } else {
                Err(TransferError::InvalidArgument)
            }
        },
    }
}

/// What a decoded instruction does to what the host loaded.
pub open spec fn dispatch_outcome(host: &Host, instruction: ConfidentialTransferInstruction) -> Result<
    Outcome,
    TransferError,
> {
    match instruction {
        ConfidentialTransferInstruction::InitializeMint {
            authority,
            auto_approve_new_accounts,
            auditor_elgamal_pubkey,
        } => match host.mint {
            None => Err(TransferError::NotEnoughAccountKeys),
            Some(mint) => for_mint(
                initialize_mint_outcome(
                    mint,
                    authority,
                    auto_approve_new_accounts,
                    auditor_elgamal_pubkey,
                ),
            ),
        },
        ConfidentialTransferInstruction::UpdateMint {
            auto_approve_new_accounts,
            auditor_elgamal_pubkey,
        } => match host.mint {
            None => Err(TransferError::NotEnoughAccountKeys),
            Some(mint) => for_mint(
                update_mint_outcome(
                    mint,
                    host.authority,
                    auto_approve_new_accounts,
                    auditor_elgamal_pubkey,
                ),
            ),
        },
        ConfidentialTransferInstruction::ConfigureAccount {
            decryptable_zero_balance,
            maximum_pending_balance_credit_counter,
            proof_instruction_offset,
        } => match (host.account, host.mint, spec_proof_source_for(host, proof_instruction_offset)) {
            (Some(account), Some(mint), Ok(_)) => for_account(
                configure_account_outcome(
                    account,
                    mint,
                    &host.proof_source->0,
                    host.owner_check,
                    decryptable_zero_balance,
                    maximum_pending_balance_credit_counter,
                ),
            ),
            (Some(_), Some(_), Err(e)) => Err(e),
            _ => Err(TransferError::NotEnoughAccountKeys),
        },
        ConfidentialTransferInstruction::ApproveAccount => match (host.account, host.mint) {
            (Some(account), Some(mint)) => for_account(
                approve_account_outcome(account, mint, host.authority),
            ),
            _ => Err(TransferError::NotEnoughAccountKeys),
        },
        ConfidentialTransferInstruction::EmptyAccount { proof_instruction_offset } => match (
            host.account,
            spec_proof_source_for(host, proof_instruction_offset),
        ) {
            (Some(account), Ok(_)) => for_account(
                empty_account_outcome(account, &host.proof_source->0, host.owner_check),
            ),
            (Some(_), Err(e)) => Err(e),
            _ => Err(TransferError::NotEnoughAccountKeys),
        },
        ConfidentialTransferInstruction::Deposit { amount, decimals } => {
            if !host.ciphertext_algebra_available {
                Err(TransferError::InvalidInstructionData)
            } else {
                match (host.account, host.mint) {
                    (Some(account), Some(mint)) => for_account(
                        deposit_outcome(account, mint, host.owner_check, amount, decimals),
                    ),
                    _ => Err(TransferError::NotEnoughAccountKeys),
                }
            }
        },
        ConfidentialTransferInstruction::Withdraw {
            amount,
            decimals,
            new_decryptable_available_balance,
            proof_instruction_offset,
        } => {
            if !host.ciphertext_algebra_available {
                Err(TransferError::InvalidInstructionData)
            } else {
                match (
                    host.account,
                    host.mint,
                    spec_proof_source_for(host, proof_instruction_offset),
                ) {
                    (Some(account), Some(mint), Ok(_)) => for_account(
                        withdraw_outcome(
                            account,
                            mint,
                            &host.proof_source->0,
                            host.owner_check,
                            amount,
                            decimals,
                            new_decryptable_available_balance,
                        ),
                    ),
                    (Some(_), Some(_), Err(e)) => Err(e),
                    _ => Err(TransferError::NotEnoughAccountKeys),
                }
            }
        },
        ConfidentialTransferInstruction::Transfer {
            new_source_decryptable_available_balance,
            proof_instruction_offset,
        } => {
            if !host.ciphertext_algebra_available {
                Err(TransferError::InvalidInstructionData)
            } else {
                match (
                    host.account,
                    host.destination,
                    host.mint,
                    spec_proof_source_for(host, proof_instruction_offset),
                ) {
                    (Some(source), Some(destination), Some(mint), Ok(_)) => for_transfer(
                        transfer_outcome(
                            source,
                            destination,
                            mint,
                            &host.proof_source->0,
                            host.owner_check,
                            host.previous_is_memo,
                            host.epoch,
                            new_source_decryptable_available_balance,
                        ),
                    ),
                    (Some(_), Some(_), Some(_), Err(e)) => Err(e),
                    _ => Err(TransferError::NotEnoughAccountKeys),
                }
            }
        },
        ConfidentialTransferInstruction::ApplyPendingBalance {
            expected_pending_balance_credit_counter,
            new_decryptable_available_balance,
        } => {
            if !host.ciphertext_algebra_available {
                Err(TransferError::InvalidInstructionData)
            } else {
                match host.account {
                    Some(account) => for_account(
                        apply_pending_balance_outcome(
                            account,
                            host.owner_check,
                            expected_pending_balance_credit_counter,
                            new_decryptable_available_balance,
                        ),
                    ),
                    None => Err(TransferError::NotEnoughAccountKeys),
                }
            }
        },
        ConfidentialTransferInstruction::EnableConfidentialCredits => toggle_outcome(
            host,
            true,
            true,
        ),
        ConfidentialTransferInstruction::DisableConfidentialCredits => toggle_outcome(
            host,
            true,
            false,
        ),
        ConfidentialTransferInstruction::EnableNonConfidentialCredits => toggle_outcome(
            host,
            false,
            true,
        ),
        ConfidentialTransferInstruction::DisableNonConfidentialCredits => toggle_outcome(
            host,
            false,
            false,
        ),
    }
}

/// What opening or closing one of an account's two gates does.
pub open spec fn toggle_outcome(host: &Host, confidential: bool, allow: bool) -> Result<
    Outcome,
    TransferError,
> {
    match host.account {
        None => Err(TransferError::NotEnoughAccountKeys),
        Some(account) => if confidential {
            for_account(allow_confidential_credits_outcome(account, host.owner_check, allow))
        } else {
            for_account(allow_non_confidential_credits_outcome(account, host.owner_check, allow))
        },
    }
}

/// Whether the instruction would reach a deposit into, or a withdrawal
/// from, an account that wraps the native currency. No such instruction can
/// be processed.
pub open spec fn reaches_native(host: &Host, instruction: ConfidentialTransferInstruction) -> bool {
    match instruction {
        ConfidentialTransferInstruction::Deposit { amount, decimals } => {
            &&& host.ciphertext_algebra_available
            &&& host.account is Some
            &&& host.mint is Some
            &&& reaches_native_account(host.account->0, host.mint->0, host.owner_check, decimals)
        },
        ConfidentialTransferInstruction::Withdraw {
            amount,
            decimals,
            new_decryptable_available_balance,
            proof_instruction_offset,
        } => {
            &&& host.ciphertext_algebra_available
            &&& host.account is Some
            &&& host.mint is Some
            &&& spec_proof_source_for(host, proof_instruction_offset) is Ok
            &&& withdraw_reaches_native_account(
                host.account->0,
                host.mint->0,
                &host.proof_source->0,
                host.owner_check,
                decimals,
            )
        },
        _ => false,
    }
}

/// Finds out whether an instruction would reach a native account.
pub fn check_reaches_native(host: &Host, instruction: &ConfidentialTransferInstruction) -> (reaches:
    bool)
    ensures
        reaches == reaches_native(host, *instruction),
{
    if !host.ciphertext_algebra_available {
        return false;
    }
    let (account, mint) = match (&host.account, &host.mint) {
        (Some(account), Some(mint)) => (account, mint),
        _ => { return false; },
    };
    match instruction {
        ConfidentialTransferInstruction::Deposit { amount, decimals } => {
            account.native && plaintext_gate(account, mint, host.owner_check, *decimals).is_ok()
        },
        ConfidentialTransferInstruction::Withdraw {
            amount,
            decimals,
            new_decryptable_available_balance,
            proof_instruction_offset,
        } => {
            match proof_source_for(host, *proof_instruction_offset) {
                Err(_) => false,
                Ok(source) => verify_withdraw_proof(source).is_ok() && account.native
                    && plaintext_gate(account, mint, host.owner_check, *decimals).is_ok(),
            }
        },
        _ => false,
    }
}

/// Carries out a decoded instruction.
pub fn dispatch(host: &Host, instruction: ConfidentialTransferInstruction) -> (outcome: Result<
    Outcome,
    TransferError,
>)
    requires
        !reaches_native(host, instruction),
    ensures
        outcome == dispatch_outcome(host, instruction),
{
    match instruction {
        ConfidentialTransferInstruction::InitializeMint {
            authority,
            auto_approve_new_accounts,
            auditor_elgamal_pubkey,
        } => {
            let mint = match &host.mint {
                Some(mint) => mint,
                None => { return Err(TransferError::NotEnoughAccountKeys); },
            };
            let after = process_initialize_mint(
                mint,
                authority,
                auto_approve_new_accounts,
                auditor_elgamal_pubkey,
            )?;
            Ok(Outcome::Mint(after))
        },
        ConfidentialTransferInstruction::UpdateMint {
            auto_approve_new_accounts,
            auditor_elgamal_pubkey,
        } => {
            let mint = match &host.mint {
                Some(mint) => mint,
                None => { return Err(TransferError::NotEnoughAccountKeys); },
            };
            let after = process_update_mint(
                mint,
                &host.authority,
                auto_approve_new_accounts,
                auditor_elgamal_pubkey,
            )?;
            Ok(Outcome::Mint(after))
        },
        ConfidentialTransferInstruction::ConfigureAccount {
            decryptable_zero_balance,
            maximum_pending_balance_credit_counter,
            proof_instruction_offset,
        } => {
            let (account, mint) = match (&host.account, &host.mint) {
                (Some(account), Some(mint)) => (account, mint),
                _ => { return Err(TransferError::NotEnoughAccountKeys); },
            };
            let source = proof_source_for(host, proof_instruction_offset)?;
            let after = process_configure_account(
                account,
                mint,
                source,
                host.owner_check,
                decryptable_zero_balance,
                maximum_pending_balance_credit_counter,
            )?;
            Ok(Outcome::Account(after))
        },
        ConfidentialTransferInstruction::ApproveAccount => {
            let (account, mint) = match (&host.account, &host.mint) {
                (Some(account), Some(mint)) => (account, mint),
                _ => { return Err(TransferError::NotEnoughAccountKeys); },
            };
            let after = process_approve_account(account, mint, &host.authority)?;
            Ok(Outcome::Account(after))
        },
        ConfidentialTransferInstruction::EmptyAccount { proof_instruction_offset } => {
            let account = match &host.account {
                Some(account) => account,
                None => { return Err(TransferError::NotEnoughAccountKeys); },
            };
            let source = proof_source_for(host, proof_instruction_offset)?;
            let after = process_empty_account(account, source, host.owner_check)?;
            Ok(Outcome::Account(after))
        },
        ConfidentialTransferInstruction::Deposit { amount, decimals } => {
            if !host.ciphertext_algebra_available {
                return Err(TransferError::InvalidInstructionData);
            }
            let (account, mint) = match (&host.account, &host.mint) {
                (Some(account), Some(mint)) => (account, mint),
                _ => { return Err(TransferError::NotEnoughAccountKeys); },
            };
            let after = process_deposit(account, mint, host.owner_check, amount, decimals)?;
            Ok(Outcome::Account(after))
        },
        ConfidentialTransferInstruction::Withdraw {
            amount,
            decimals,
            new_decryptable_available_balance,
            proof_instruction_offset,
        } => {
            if !host.ciphertext_algebra_available {
                return Err(TransferError::InvalidInstructionData);
            }
            let (account, mint) = match (&host.account, &host.mint) {
                (Some(account), Some(mint)) => (account, mint),
                _ => { return Err(TransferError::NotEnoughAccountKeys); },
            };
            let source = proof_source_for(host, proof_instruction_offset)?;
            let after = process_withdraw(
                account,
                mint,
                source,
                host.owner_check,
                amount,
                decimals,
                new_decryptable_available_balance,
            )?;
            Ok(Outcome::Account(after))
        },
        ConfidentialTransferInstruction::Transfer {
            new_source_decryptable_available_balance,
            proof_instruction_offset,
        } => {
            if !host.ciphertext_algebra_available {
                return Err(TransferError::InvalidInstructionData);
            }
            let (source_account, destination, mint) = match (
                &host.account,
                &host.destination,
                &host.mint,
            ) {
                (Some(source_account), Some(destination), Some(mint)) => (
                    source_account,
                    destination,
                    mint,
                ),
                _ => { return Err(TransferError::NotEnoughAccountKeys); },
            };
            let source = proof_source_for(host, proof_instruction_offset)?;
            let (source_after, destination_after) = process_transfer(
                source_account,
                destination,
                mint,
                source,
                host.owner_check,
                host.previous_is_memo,
                host.epoch,
                new_source_decryptable_available_balance,
            )?;
            Ok(Outcome::Transfer { source: source_after, destination: destination_after })
        },
        ConfidentialTransferInstruction::ApplyPendingBalance {
            expected_pending_balance_credit_counter,
            new_decryptable_available_balance,
        } => {
            if !host.ciphertext_algebra_available {
                return Err(TransferError::InvalidInstructionData);
            }
            let account = match &host.account {
                Some(account) => account,
                None => { return Err(TransferError::NotEnoughAccountKeys); },
            };
            let after = process_apply_pending_balance(
                account,
                host.owner_check,
                expected_pending_balance_credit_counter,
                new_decryptable_available_balance,
            )?;
            Ok(Outcome::Account(after))
        },
        ConfidentialTransferInstruction::EnableConfidentialCredits => toggle(host, true, true),
        ConfidentialTransferInstruction::DisableConfidentialCredits => toggle(host, true, false),
        ConfidentialTransferInstruction::EnableNonConfidentialCredits => toggle(host, false, true),
        ConfidentialTransferInstruction::DisableNonConfidentialCredits => toggle(
            host,
            false,
            false,
        ),
    }
}

/// Opens or closes one of an account's two gates.
pub fn toggle(host: &Host, confidential: bool, allow: bool) -> (outcome: Result<
    Outcome,
    TransferError,
>)
    ensures
        outcome == toggle_outcome(host, confidential, allow),
{
    let account = match &host.account {
        Some(account) => account,
        None => { return Err(TransferError::NotEnoughAccountKeys); },
    };
    let after = if confidential {
        process_allow_confidential_credits(account, host.owner_check, allow)?
    } else {
        process_allow_non_confidential_credits(account, host.owner_check, allow)?
    };
    Ok(Outcome::Account(after))
}

/// What the instruction encoded in `input` does to what the host loaded.
pub open spec fn instruction_outcome(host: &Host, input: Seq<u8>) -> Result<
    Outcome,
    TransferError,
> {
    match spec_decode_instruction(input) {
        Err(e) => Err(e),
        Ok(instruction) => dispatch_outcome(host, instruction),
    }
}

/// Whether the instruction encoded in `input` would reach a native account.
pub open spec fn input_reaches_native(host: &Host, input: Seq<u8>) -> bool {
    spec_decode_instruction(input) matches Ok(instruction) && reaches_native(host, instruction)
}

/// Decodes an instruction and carries it out.
pub fn process_instruction(host: &Host, input: &[u8]) -> (outcome: Result<Outcome, TransferError>)
    requires
        !input_reaches_native(host, input@),
    ensures
        outcome == instruction_outcome(host, input@),
{
    let instruction = decode_instruction(input)?;
    dispatch(host, instruction)
}

} // verus!
