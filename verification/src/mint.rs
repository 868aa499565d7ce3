//! Setting up and changing a mint's configuration for confidential
//! transfers.

use vstd::prelude::*;
use crate::error::TransferError;
use crate::processor::Signer;
use crate::state::{ConfidentialTransferMint, Mint};
use crate::types::{ElGamalPubkey, Pubkey};

verus! {

/// The mint with its configuration set up, which can be done once.
pub open spec fn initialize_mint_outcome(
    mint: Mint,
    authority: Option<Pubkey>,
    auto_approve_new_accounts: bool,
    auditor_elgamal_pubkey: Option<ElGamalPubkey>,
) -> Result<Mint, TransferError> {
    if mint.confidential_transfer is Some {
        Err(TransferError::ExtensionAlreadyInitialized)
    } else {
        Ok(
            Mint {
                confidential_transfer: Some(
                    ConfidentialTransferMint {
                        authority,
                        auto_approve_new_accounts,
                        auditor_elgamal_pubkey,
                    },
                ),
                ..mint
            },
        )
    }
}

/// Sets up a mint's configuration for confidential transfers.
pub fn process_initialize_mint(
    mint: &Mint,
    authority: Option<Pubkey>,
    auto_approve_new_accounts: bool,
    auditor_elgamal_pubkey: Option<ElGamalPubkey>,
) -> (after: Result<Mint, TransferError>)
    ensures
        after == initialize_mint_outcome(
            *mint,
            authority,
            auto_approve_new_accounts,
            auditor_elgamal_pubkey,
        ),
{
    if mint.confidential_transfer.is_some() {
        return Err(TransferError::ExtensionAlreadyInitialized);
    }
    let mut after = *mint;
    after.confidential_transfer = Some(
        ConfidentialTransferMint { authority, auto_approve_new_accounts, auditor_elgamal_pubkey },
    );
    Ok(after)
}

/// The mint with both changeable settings replaced. Only the stored
/// authority may do that, and a mint without authority stays as it is.
pub open spec fn update_mint_outcome(
    mint: Mint,
    authority: Signer,
    auto_approve_new_accounts: bool,
    auditor_elgamal_pubkey: Option<ElGamalPubkey>,
) -> Result<Mint, TransferError> {
    match mint.confidential_transfer {
        None => Err(TransferError::ExtensionNotFound),
        Some(config) => match config.authority {
            None => Err(TransferError::NoAuthorityExists),
            Some(stored) => if !authority.is_signer {
                Err(TransferError::MissingRequiredSignature)
            } else if stored != authority.key {
                Err(TransferError::OwnerMismatch)
            } else {
                Ok(
                    Mint {
                        confidential_transfer: Some(
                            ConfidentialTransferMint {
                                auto_approve_new_accounts,
                                auditor_elgamal_pubkey,
                                ..config
                            },
                        ),
                        ..mint
                    },
                )
            },
        },
    }
}

/// Replaces a mint's auto-approve flag and auditor key.
pub fn process_update_mint(
    mint: &Mint,
    authority: &Signer,
    auto_approve_new_accounts: bool,
    auditor_elgamal_pubkey: Option<ElGamalPubkey>,
) -> (after: Result<Mint, TransferError>)
    ensures
        after == update_mint_outcome(
            *mint,
            *authority,
            auto_approve_new_accounts,
            auditor_elgamal_pubkey,
        ),
{
    let config = match mint.confidential_transfer {
        Some(config) => config,
        None => { return Err(TransferError::ExtensionNotFound); },
    };
    let stored = match config.authority {
        Some(stored) => stored,
        None => { return Err(TransferError::NoAuthorityExists); },
    };
    if !authority.is_signer {
        return Err(TransferError::MissingRequiredSignature);
    }
    if !stored.same_as(&authority.key) {
        return Err(TransferError::OwnerMismatch);
    }
    let mut updated = config;
    updated.auto_approve_new_accounts = auto_approve_new_accounts;
    updated.auditor_elgamal_pubkey = auditor_elgamal_pubkey;
    let mut after = *mint;
    after.confidential_transfer = Some(updated);
    Ok(after)
}

} // verus!
