//! Configuring, approving and emptying an account, and opening and closing
//! its two gates for credits.

use vstd::prelude::*;
use crate::context::{
    spec_verify_configure_account_proof, spec_verify_empty_account_proof,
    verify_configure_account_proof, verify_empty_account_proof, ProofSource,
};
use crate::error::TransferError;
use crate::processor::Signer;
use crate::state::{
    closable, spec_closable, ConfidentialTransferAccount, ConfidentialTransferFeeAmount, Mint,
    TokenAccount,
};
use crate::types::{DecryptableBalance, ElGamalCiphertext};

verus! {

/// The account with its confidential state set up, which can be done once.
/// The key is the one whose validity the proof attests; the account is
/// approved at once where the mint says so; where the mint charges transfer
/// fees, the account also starts to withhold them, from zero.
pub open spec fn configure_account_outcome(
    account: TokenAccount,
    mint: Mint,
    proof_source: &ProofSource,
    owner_check: Result<(), TransferError>,
    decryptable_zero_balance: DecryptableBalance,
    maximum_pending_balance_credit_counter: u64,
) -> Result<TokenAccount, TransferError> {
    match spec_verify_configure_account_proof(proof_source) {
        Err(e) => Err(e),
        Ok(context) => if account.mint != mint.address {
            Err(TransferError::MintMismatch)
        } else if owner_check is Err {
            Err(owner_check->Err_0)
        } else {
            match mint.confidential_transfer {
                None => Err(TransferError::ExtensionNotFound),
                Some(config) => if account.confidential_transfer is Some {
                    Err(TransferError::ExtensionAlreadyInitialized)
                } else if mint.transfer_fee is Some && account.confidential_transfer_fee is Some {
                    Err(TransferError::ExtensionAlreadyInitialized)
                } else {
                    Ok(
                        TokenAccount {
                            confidential_transfer: Some(
                                ConfidentialTransferAccount::spec_configured(
                                    context.pubkey,
                                    config.auto_approve_new_accounts,
                                    decryptable_zero_balance,
                                    maximum_pending_balance_credit_counter,
                                ),
                            ),
                            confidential_transfer_fee: if mint.transfer_fee is Some {
                                Some(
                                    ConfidentialTransferFeeAmount {
                                        withheld_amount: ElGamalCiphertext::zeroed(),
                                    },
                                )
                            } else {
                                account.confidential_transfer_fee
                            },
                            ..account
                        },
                    )
                },
            }
        },
    }
}

/// Sets up an account's confidential state.
pub fn process_configure_account(
    account: &TokenAccount,
    mint: &Mint,
    proof_source: &ProofSource,
    owner_check: Result<(), TransferError>,
    decryptable_zero_balance: DecryptableBalance,
    maximum_pending_balance_credit_counter: u64,
) -> (after: Result<TokenAccount, TransferError>)
    ensures
        after == configure_account_outcome(
            *account,
            *mint,
            proof_source,
            owner_check,
            decryptable_zero_balance,
            maximum_pending_balance_credit_counter,
        ),
{
    let context = verify_configure_account_proof(proof_source)?;
    if !account.mint.same_as(&mint.address) {
        return Err(TransferError::MintMismatch);
    }
    if let Err(e) = owner_check {
        return Err(e);
    }
    let config = match mint.confidential_transfer {
        Some(config) => config,
        None => { return Err(TransferError::ExtensionNotFound); },
    };
    if account.confidential_transfer.is_some() {
        return Err(TransferError::ExtensionAlreadyInitialized);
    }
    let mut after = *account;
    after.confidential_transfer = Some(
        ConfidentialTransferAccount::configured(
            context.pubkey,
            config.auto_approve_new_accounts,
            decryptable_zero_balance,
            maximum_pending_balance_credit_counter,
        ),
    );
    if mint.transfer_fee.is_some() {
        if account.confidential_transfer_fee.is_some() {
            return Err(TransferError::ExtensionAlreadyInitialized);
        }
        after.confidential_transfer_fee = Some(
            ConfidentialTransferFeeAmount { withheld_amount: ElGamalCiphertext::zeroed() },
        );
    }
    Ok(after)
}

/// The account approved. Only the mint's authority may approve, and no
/// balance changes.
pub open spec fn approve_account_outcome(
    account: TokenAccount,
    mint: Mint,
    authority: Signer,
) -> Result<TokenAccount, TransferError> {
    match mint.confidential_transfer {
        None => Err(TransferError::ExtensionNotFound),
        Some(config) => match config.authority {
            None => Err(TransferError::NoAuthorityExists),
            Some(stored) => if !(authority.is_signer && authority.key == stored) {
                Err(TransferError::MissingRequiredSignature)
            } else {
                match account.confidential_transfer {
                    None => Err(TransferError::ExtensionNotFound),
                    Some(state) => Ok(
                        TokenAccount {
                            confidential_transfer: Some(
                                ConfidentialTransferAccount { approved: true, ..state },
                            ),
                            ..account
                        },
                    ),
                }
            },
        },
    }
}

/// Approves an account for confidential transfers.
pub fn process_approve_account(account: &TokenAccount, mint: &Mint, authority: &Signer) -> (after:
    Result<TokenAccount, TransferError>)
    ensures
        after == approve_account_outcome(*account, *mint, *authority),
{
    let config = match mint.confidential_transfer {
        Some(config) => config,
        None => { return Err(TransferError::ExtensionNotFound); },
    };
    let stored = match config.authority {
        Some(stored) => stored,
        None => { return Err(TransferError::NoAuthorityExists); },
    };
    if !(authority.is_signer && authority.key.same_as(&stored)) {
        return Err(TransferError::MissingRequiredSignature);
    }
    let mut state = match account.confidential_transfer {
        Some(state) => state,
        None => { return Err(TransferError::ExtensionNotFound); },
    };
    state.approved = true;
    let mut after = *account;
    after.confidential_transfer = Some(state);
    Ok(after)
}

/// The account emptied, ready to be closed. The proof must attest, under
/// the account's key, that the very ciphertext of its available balance
/// encrypts 0; that balance then becomes the zero ciphertext, and the
/// account must be closable.
pub open spec fn empty_account_outcome(
    account: TokenAccount,
    proof_source: &ProofSource,
    owner_check: Result<(), TransferError>,
) -> Result<TokenAccount, TransferError> {
    match spec_verify_empty_account_proof(proof_source) {
        Err(e) => Err(e),
        Ok(context) => if owner_check is Err {
            Err(owner_check->Err_0)
        } else {
            match account.confidential_transfer {
                None => Err(TransferError::ExtensionNotFound),
                Some(state) => if state.elgamal_pubkey != context.pubkey {
                    Err(TransferError::ConfidentialTransferElGamalPubkeyMismatch)
                } else if state.available_balance != context.ciphertext {
                    Err(TransferError::InvalidInstructionData)
                } else {
                    let emptied = ConfidentialTransferAccount {
                        available_balance: ElGamalCiphertext::zeroed(),
                        ..state
                    };
                    if spec_closable(&emptied, &account.confidential_transfer_fee) is Err {
                        Err(TransferError::ConfidentialTransferAccountHasBalance)
                    } else {
                        Ok(TokenAccount { confidential_transfer: Some(emptied), ..account })
                    }
                },
            }
        },
    }
}

/// Empties an account's available balance so that it can be closed.
pub fn process_empty_account(
    account: &TokenAccount,
    proof_source: &ProofSource,
    owner_check: Result<(), TransferError>,
) -> (after: Result<TokenAccount, TransferError>)
    ensures
        after == empty_account_outcome(*account, proof_source, owner_check),
{
    let context = verify_empty_account_proof(proof_source)?;
    if let Err(e) = owner_check {
        return Err(e);
    }
    let mut state = match account.confidential_transfer {
        Some(state) => state,
        None => { return Err(TransferError::ExtensionNotFound); },
    };
    if !state.elgamal_pubkey.same_as(&context.pubkey) {
        return Err(TransferError::ConfidentialTransferElGamalPubkeyMismatch);
    }
    if !state.available_balance.same_as(&context.ciphertext) {
        return Err(TransferError::InvalidInstructionData);
    }
    state.available_balance = ElGamalCiphertext::zeroed();
    closable(&state, &account.confidential_transfer_fee)?;
    let mut after = *account;
    after.confidential_transfer = Some(state);
    Ok(after)
}

/// The account with its gate for confidential credits set.
pub open spec fn allow_confidential_credits_outcome(
    account: TokenAccount,
    owner_check: Result<(), TransferError>,
    allow_confidential_credits: bool,
) -> Result<TokenAccount, TransferError> {
    match (owner_check, account.confidential_transfer) {
        (Err(e), _) => Err(e),
        (Ok(_), None) => Err(TransferError::ExtensionNotFound),
        (Ok(_), Some(state)) => Ok(
            TokenAccount {
                confidential_transfer: Some(
                    ConfidentialTransferAccount { allow_confidential_credits, ..state },
                ),
                ..account
            },
        ),
    }
}

/// Opens or closes an account for confidential credits.
pub fn process_allow_confidential_credits(
    account: &TokenAccount,
    owner_check: Result<(), TransferError>,
    allow_confidential_credits: bool,
) -> (after: Result<TokenAccount, TransferError>)
    ensures
        after == allow_confidential_credits_outcome(
            *account,
            owner_check,
            allow_confidential_credits,
        ),
{
    if let Err(e) = owner_check {
        return Err(e);
    }
    let mut state = match account.confidential_transfer {
        Some(state) => state,
        None => { return Err(TransferError::ExtensionNotFound); },
    };
    state.allow_confidential_credits = allow_confidential_credits;
    let mut after = *account;
    after.confidential_transfer = Some(state);
    Ok(after)
}

/// The account with its gate for non-confidential credits set.
pub open spec fn allow_non_confidential_credits_outcome(
    account: TokenAccount,
    owner_check: Result<(), TransferError>,
    allow_non_confidential_credits: bool,
) -> Result<TokenAccount, TransferError> {
    match (owner_check, account.confidential_transfer) {
        (Err(e), _) => Err(e),
        (Ok(_), None) => Err(TransferError::ExtensionNotFound),
        (Ok(_), Some(state)) => Ok(
            TokenAccount {
                confidential_transfer: Some(
                    ConfidentialTransferAccount { allow_non_confidential_credits, ..state },
                ),
                ..account
            },
        ),
    }
}

/// Opens or closes an account for non-confidential credits.
pub fn process_allow_non_confidential_credits(
    account: &TokenAccount,
    owner_check: Result<(), TransferError>,
    allow_non_confidential_credits: bool,
) -> (after: Result<TokenAccount, TransferError>)
    ensures
        after == allow_non_confidential_credits_outcome(
            *account,
            owner_check,
            allow_non_confidential_credits,
        ),
{
    if let Err(e) = owner_check {
        return Err(e);
    }
    let mut state = match account.confidential_transfer {
        Some(state) => state,
        None => { return Err(TransferError::ExtensionNotFound); },
    };
    state.allow_non_confidential_credits = allow_non_confidential_credits;
    let mut after = *account;
    after.confidential_transfer = Some(state);
    Ok(after)
}

} // verus!
