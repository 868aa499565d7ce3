//! The transfer from one confidential balance to another, with or without a
//! fee. The source is debited first, then the destination is credited.

use vstd::prelude::*;
use crate::algebra;
use crate::context::{
    fee_amount_destination_ciphertext, fee_amount_withdraw_withheld_authority_ciphertext,
    spec_verify_transfer_proof, spec_verify_transfer_with_fee_proof,
    transfer_amount_destination_ciphertext, transfer_amount_source_ciphertext,
    verify_transfer_proof, verify_transfer_with_fee_proof, EncryptedFee, ProofSource,
    TransferAmountCiphertext, TransferProofContext, TransferWithFeeProofContext,
};
use crate::error::TransferError;
use crate::processor::{credited, debited, spec_credited, spec_debited};
use crate::state::{
    ConfidentialTransferAccount, ConfidentialTransferFeeAmount, ConfidentialTransferMint, Mint,
    TokenAccount,
};
use crate::types::{DecryptableBalance, ElGamalCiphertext, ElGamalPubkey, Pubkey};

verus! {

/// Whether the key that a proof names as the auditor's is the one the mint
/// is configured with. A mint without auditor goes with the all-zero key.
pub open spec fn spec_auditor_matches(
    configured: Option<ElGamalPubkey>,
    attested: ElGamalPubkey,
) -> bool {
    match configured {
        Some(key) => key == attested,
        None => attested == ElGamalPubkey::zeroed(),
    }
}

/// Compares the mint's auditor key with the one a proof attests.
pub fn auditor_matches(configured: &Option<ElGamalPubkey>, attested: &ElGamalPubkey) -> (same: bool)
    ensures
        same == spec_auditor_matches(*configured, *attested),
{
    match configured {
        Some(key) => key.same_as(attested),
        None => attested.same_as(&ElGamalPubkey::zeroed()),
    }
}

/// A transfer needs a fee proof when the mint charges transfer fees and the
/// source is not the destination.
pub open spec fn spec_fee_required(mint: Mint, source: Pubkey, destination: Pubkey) -> bool {
    mint.transfer_fee is Some && source != destination
}

/// Decides whether a transfer needs a fee proof.
pub fn fee_required(mint: &Mint, source: &Pubkey, destination: &Pubkey) -> (required: bool)
    ensures
        required == spec_fee_required(*mint, *source, *destination),
{
    mint.transfer_fee.is_some() && !source.same_as(destination)
}

/// What a transfer checks of its source before any ciphertext is touched.
pub open spec fn spec_source_check(
    account: TokenAccount,
    mint_address: Pubkey,
    owner_check: Result<(), TransferError>,
    attested_pubkey: ElGamalPubkey,
) -> Result<ConfidentialTransferAccount, TransferError> {
    if owner_check is Err {
        Err(owner_check->Err_0)
    } else if account.frozen {
        Err(TransferError::AccountFrozen)
    } else if account.mint != mint_address {
        Err(TransferError::MintMismatch)
    } else {
        match account.confidential_transfer {
            None => Err(TransferError::ExtensionNotFound),
            Some(state) => if state.spec_valid_as_source() is Err {
                Err(state.spec_valid_as_source()->Err_0)
            } else if attested_pubkey != state.elgamal_pubkey {
                Err(TransferError::ConfidentialTransferElGamalPubkeyMismatch)
            } else {
                Ok(state)
            },
        }
    }
}

/// Checks the source of a transfer.
pub fn source_check(
    account: &TokenAccount,
    mint_address: &Pubkey,
    owner_check: Result<(), TransferError>,
    attested_pubkey: &ElGamalPubkey,
) -> (checked: Result<ConfidentialTransferAccount, TransferError>)
    ensures
        checked == spec_source_check(*account, *mint_address, owner_check, *attested_pubkey),
{
    if let Err(e) = owner_check {
        return Err(e);
    }
    if account.frozen {
        return Err(TransferError::AccountFrozen);
    }
    if !account.mint.same_as(mint_address) {
        return Err(TransferError::MintMismatch);
    }
    let state = match account.confidential_transfer {
        Some(state) => state,
        None => { return Err(TransferError::ExtensionNotFound); },
    };
    state.valid_as_source()?;
    if !attested_pubkey.same_as(&state.elgamal_pubkey) {
        return Err(TransferError::ConfidentialTransferElGamalPubkeyMismatch);
    }
    Ok(state)
}

/// The source after a transfer, or why the transfer is refused there: the
/// available balance less both parts of the amount must be, byte for byte,
/// what the proof attests.
pub open spec fn source_outcome(
    account: TokenAccount,
    mint_address: Pubkey,
    owner_check: Result<(), TransferError>,
    attested_pubkey: ElGamalPubkey,
    amount_lo: ElGamalCiphertext,
    amount_hi: ElGamalCiphertext,
    attested_available_balance: ElGamalCiphertext,
    new_decryptable_available_balance: DecryptableBalance,
) -> Result<TokenAccount, TransferError> {
    match spec_source_check(account, mint_address, owner_check, attested_pubkey) {
        Err(e) => Err(e),
        Ok(state) => match spec_debited(
            state,
            algebra::difference_lo_hi(state.available_balance, amount_lo, amount_hi),
            attested_available_balance,
            new_decryptable_available_balance,
        ) {
            Err(e) => Err(e),
            Ok(after) => Ok(TokenAccount { confidential_transfer: Some(after), ..account }),
        },
    }
}

/// Debits the source of a transfer.
pub fn process_source_for_transfer(
    account: &TokenAccount,
    mint_address: &Pubkey,
    owner_check: Result<(), TransferError>,
    attested_pubkey: &ElGamalPubkey,
    amount_lo: &ElGamalCiphertext,
    amount_hi: &ElGamalCiphertext,
    attested_available_balance: &ElGamalCiphertext,
    new_decryptable_available_balance: DecryptableBalance,
) -> (after: Result<TokenAccount, TransferError>)
    ensures
        after == source_outcome(
            *account,
            *mint_address,
            owner_check,
            *attested_pubkey,
            *amount_lo,
            *amount_hi,
            *attested_available_balance,
            new_decryptable_available_balance,
        ),
{
    let state = source_check(account, mint_address, owner_check, attested_pubkey)?;
    let available = algebra::subtract_with_lo_hi(&state.available_balance, amount_lo, amount_hi);
    let debited_state = debited(
        &state,
        available,
        attested_available_balance,
        new_decryptable_available_balance,
    )?;
    let mut after = *account;
    after.confidential_transfer = Some(debited_state);
    Ok(after)
}

/// What a transfer checks of its destination before any ciphertext is
/// touched.
pub open spec fn spec_destination_check(
    account: TokenAccount,
    mint_address: Pubkey,
    previous_is_memo: bool,
    attested_pubkey: ElGamalPubkey,
) -> Result<ConfidentialTransferAccount, TransferError> {
    if account.frozen {
        Err(TransferError::AccountFrozen)
    } else if account.mint != mint_address {
        Err(TransferError::MintMismatch)
    } else if account.memo_required && !previous_is_memo {
        Err(TransferError::NoMemo)
    } else {
        match account.confidential_transfer {
            None => Err(TransferError::ExtensionNotFound),
            Some(state) => if state.spec_valid_as_destination() is Err {
                Err(state.spec_valid_as_destination()->Err_0)
            } else if attested_pubkey != state.elgamal_pubkey {
                Err(TransferError::ConfidentialTransferElGamalPubkeyMismatch)
            } else {
                Ok(state)
            },
        }
    }
}

/// Checks the destination of a transfer.
pub fn destination_check(
    account: &TokenAccount,
    mint_address: &Pubkey,
    previous_is_memo: bool,
    attested_pubkey: &ElGamalPubkey,
) -> (checked: Result<ConfidentialTransferAccount, TransferError>)
    ensures
        checked == spec_destination_check(
            *account,
            *mint_address,
            previous_is_memo,
            *attested_pubkey,
        ),
{
    if account.frozen {
        return Err(TransferError::AccountFrozen);
    }
    if !account.mint.same_as(mint_address) {
        return Err(TransferError::MintMismatch);
    }
    if account.memo_required && !previous_is_memo {
        return Err(TransferError::NoMemo);
    }
    let state = match account.confidential_transfer {
        Some(state) => state,
        None => { return Err(TransferError::ExtensionNotFound); },
    };
    state.valid_as_destination()?;
    if !attested_pubkey.same_as(&state.elgamal_pubkey) {
        return Err(TransferError::ConfidentialTransferElGamalPubkeyMismatch);
    }
    Ok(state)
}

/// The destination's confidential state and withheld fees once the fee is
/// taken from the pending balances and added to the withheld amount, the
/// three results given.
pub open spec fn spec_fee_withheld(
    state: ConfidentialTransferAccount,
    fee_amount: Option<ConfidentialTransferFeeAmount>,
    pending_lo: Option<ElGamalCiphertext>,
    pending_hi: Option<ElGamalCiphertext>,
    withheld: Option<ElGamalCiphertext>,
) -> Result<(ConfidentialTransferAccount, ConfidentialTransferFeeAmount), TransferError> {
    match (pending_lo, pending_hi, fee_amount, withheld) {
        (None, _, _, _) => Err(TransferError::InvalidInstructionData),
        (Some(_), None, _, _) => Err(TransferError::InvalidInstructionData),
        (Some(_), Some(_), None, _) => Err(TransferError::ExtensionNotFound),
        (Some(_), Some(_), Some(_), None) => Err(TransferError::InvalidInstructionData),
        (Some(lo), Some(hi), Some(_), Some(total)) => Ok(
            (
                ConfidentialTransferAccount {
                    pending_balance_lo: lo,
                    pending_balance_hi: hi,
                    ..state
                },
                ConfidentialTransferFeeAmount { withheld_amount: total },
            ),
        ),
    }
}

/// Books a fee whose three results the caller has formed.
pub fn fee_withheld(
    state: &ConfidentialTransferAccount,
    fee_amount: &Option<ConfidentialTransferFeeAmount>,
    pending_lo: Option<ElGamalCiphertext>,
    pending_hi: Option<ElGamalCiphertext>,
    withheld: Option<ElGamalCiphertext>,
) -> (after: Result<(ConfidentialTransferAccount, ConfidentialTransferFeeAmount), TransferError>)
    ensures
        after == spec_fee_withheld(*state, *fee_amount, pending_lo, pending_hi, withheld),
{
    let lo = match pending_lo {
        Some(lo) => lo,
        None => { return Err(TransferError::InvalidInstructionData); },
    };
    let hi = match pending_hi {
        Some(hi) => hi,
        None => { return Err(TransferError::InvalidInstructionData); },
    };
    if fee_amount.is_none() {
        return Err(TransferError::ExtensionNotFound);
    }
    let total = match withheld {
        Some(total) => total,
        None => { return Err(TransferError::InvalidInstructionData); },
    };
    let mut after = *state;
    after.pending_balance_lo = lo;
    after.pending_balance_hi = hi;
    Ok((after, ConfidentialTransferFeeAmount { withheld_amount: total }))
}

/// The withheld amount with the fee added, as the withdraw withheld
/// authority can decrypt it; `None` too where the account withholds no fees.
pub open spec fn withheld_with_fee(
    fee_amount: Option<ConfidentialTransferFeeAmount>,
    fee_lo: EncryptedFee,
    fee_hi: EncryptedFee,
) -> Option<ElGamalCiphertext> {
    match fee_amount {
        None => None,
        Some(fee_amount) => algebra::sum_lo_hi(
            fee_amount.withheld_amount,
            fee_lo.spec_withdraw_withheld_authority_ciphertext(),
            fee_hi.spec_withdraw_withheld_authority_ciphertext(),
        ),
    }
}

/// The destination after the fee is settled on a state that was credited.
pub open spec fn fee_outcome(
    account: TokenAccount,
    credited_state: ConfidentialTransferAccount,
    fee_lo: EncryptedFee,
    fee_hi: EncryptedFee,
) -> Result<TokenAccount, TransferError> {
    match spec_fee_withheld(
        credited_state,
        account.confidential_transfer_fee,
        algebra::difference(
            credited_state.pending_balance_lo,
            fee_lo.spec_destination_ciphertext(),
        ),
        algebra::difference(
            credited_state.pending_balance_hi,
            fee_hi.spec_destination_ciphertext(),
        ),
        withheld_with_fee(account.confidential_transfer_fee, fee_lo, fee_hi),
    ) {
        Err(e) => Err(e),
        Ok((state, fee_amount)) => Ok(
            TokenAccount {
                confidential_transfer: Some(state),
                confidential_transfer_fee: Some(fee_amount),
                ..account
            },
        ),
    }
}

/// The destination after a transfer, or why the transfer is refused there.
/// Both parts of the amount are added to the pending balances and the credit
/// is counted; a fee is then taken from the pending balances and added to
/// the account's withheld amount.
pub open spec fn destination_outcome(
    account: TokenAccount,
    mint_address: Pubkey,
    previous_is_memo: bool,
    attested_pubkey: ElGamalPubkey,
    amount_lo: ElGamalCiphertext,
    amount_hi: ElGamalCiphertext,
    fee: Option<(EncryptedFee, EncryptedFee)>,
) -> Result<TokenAccount, TransferError> {
    match spec_destination_check(account, mint_address, previous_is_memo, attested_pubkey) {
        Err(e) => Err(e),
        Ok(state) => match spec_credited(
            state,
            algebra::sum(state.pending_balance_lo, amount_lo),
            algebra::sum(state.pending_balance_hi, amount_hi),
        ) {
            Err(e) => Err(e),
            Ok(credited_state) => match fee {
                None => Ok(TokenAccount { confidential_transfer: Some(credited_state), ..account }),
                Some((fee_lo, fee_hi)) => fee_outcome(account, credited_state, fee_lo, fee_hi),
            },
        },
    }
}

/// Credits the destination of a transfer.
pub fn process_destination_for_transfer(
    account: &TokenAccount,
    mint_address: &Pubkey,
    previous_is_memo: bool,
    attested_pubkey: &ElGamalPubkey,
    amount_lo: &ElGamalCiphertext,
    amount_hi: &ElGamalCiphertext,
    fee: Option<(EncryptedFee, EncryptedFee)>,
) -> (after: Result<TokenAccount, TransferError>)
    ensures
        after == destination_outcome(
            *account,
            *mint_address,
            previous_is_memo,
            *attested_pubkey,
            *amount_lo,
            *amount_hi,
            fee,
        ),
{
    let state = destination_check(account, mint_address, previous_is_memo, attested_pubkey)?;
    let pending_lo = algebra::add(&state.pending_balance_lo, amount_lo);
    let pending_hi = if pending_lo.is_some() {
        algebra::add(&state.pending_balance_hi, amount_hi)
    } else {
        None
    };
    let credited_state = credited(&state, pending_lo, pending_hi)?;
    let mut after = *account;
    match fee {
        None => {
            after.confidential_transfer = Some(credited_state);
        },
        Some((fee_lo, fee_hi)) => {
            let destination_fee_lo = fee_amount_destination_ciphertext(&fee_lo);
            let destination_fee_hi = fee_amount_destination_ciphertext(&fee_hi);
            let net_lo = algebra::subtract(&credited_state.pending_balance_lo, &destination_fee_lo);
            let net_hi = algebra::subtract(&credited_state.pending_balance_hi, &destination_fee_hi);
            let withheld = match &account.confidential_transfer_fee {
                None => None,
                Some(fee_amount) => {
                    let authority_fee_lo = fee_amount_withdraw_withheld_authority_ciphertext(
                        &fee_lo,
                    );
                    let authority_fee_hi = fee_amount_withdraw_withheld_authority_ciphertext(
                        &fee_hi,
                    );
                    algebra::add_with_lo_hi(
                        &fee_amount.withheld_amount,
                        &authority_fee_lo,
                        &authority_fee_hi,
                    )
                },
            };
            let (state_after_fee, fee_amount) = fee_withheld(
                &credited_state,
                &account.confidential_transfer_fee,
                net_lo,
                net_hi,
                withheld,
            )?;
            after.confidential_transfer = Some(state_after_fee);
            after.confidential_transfer_fee = Some(fee_amount);
        },
    }
    Ok(after)
}

/// Both accounts after the source is debited and the destination credited.
/// Where source and destination are one account, the credit is booked on the
/// account as the debit left it, and both results are that one account.
pub open spec fn both_sides_outcome(
    source: TokenAccount,
    destination: TokenAccount,
    mint_address: Pubkey,
    owner_check: Result<(), TransferError>,
    previous_is_memo: bool,
    source_pubkey: ElGamalPubkey,
    destination_pubkey: ElGamalPubkey,
    amount_lo: TransferAmountCiphertext,
    amount_hi: TransferAmountCiphertext,
    attested_available_balance: ElGamalCiphertext,
    new_decryptable_available_balance: DecryptableBalance,
    fee: Option<(EncryptedFee, EncryptedFee)>,
) -> Result<(TokenAccount, TokenAccount), TransferError> {
    match source_outcome(
        source,
        mint_address,
        owner_check,
        source_pubkey,
        amount_lo.spec_source_ciphertext(),
        amount_hi.spec_source_ciphertext(),
        attested_available_balance,
        new_decryptable_available_balance,
    ) {
        Err(e) => Err(e),
        Ok(debited_source) => {
            let same = source.address == destination.address;
            match destination_outcome(
                if same {
                    debited_source
                } else {
                    destination
                },
                mint_address,
                previous_is_memo,
                destination_pubkey,
                amount_lo.spec_destination_ciphertext(),
                amount_hi.spec_destination_ciphertext(),
                fee,
            ) {
                Err(e) => Err(e),
                Ok(credited_destination) => Ok(
                    (
                        if same {
                            credited_destination
                        } else {
                            debited_source
                        },
                        credited_destination,
                    ),
                ),
            }
        },
    }
}

/// Debits the source, then credits the destination.
pub fn process_both_sides(
    source: &TokenAccount,
    destination: &TokenAccount,
    mint_address: &Pubkey,
    owner_check: Result<(), TransferError>,
    previous_is_memo: bool,
    source_pubkey: &ElGamalPubkey,
    destination_pubkey: &ElGamalPubkey,
    amount_lo: &TransferAmountCiphertext,
    amount_hi: &TransferAmountCiphertext,
    attested_available_balance: &ElGamalCiphertext,
    new_decryptable_available_balance: DecryptableBalance,
    fee: Option<(EncryptedFee, EncryptedFee)>,
) -> (after: Result<(TokenAccount, TokenAccount), TransferError>)
    ensures
        after == both_sides_outcome(
            *source,
            *destination,
            *mint_address,
            owner_check,
            previous_is_memo,
            *source_pubkey,
            *destination_pubkey,
            *amount_lo,
            *amount_hi,
            *attested_available_balance,
            new_decryptable_available_balance,
            fee,
        ),
{
    let source_amount_lo = transfer_amount_source_ciphertext(amount_lo);
    let source_amount_hi = transfer_amount_source_ciphertext(amount_hi);
    let debited_source = process_source_for_transfer(
        source,
        mint_address,
        owner_check,
        source_pubkey,
        &source_amount_lo,
        &source_amount_hi,
        attested_available_balance,
        new_decryptable_available_balance,
    )?;
    let destination_amount_lo = transfer_amount_destination_ciphertext(amount_lo);
    let destination_amount_hi = transfer_amount_destination_ciphertext(amount_hi);
    let same = source.address.same_as(&destination.address);
    let credited_destination = process_destination_for_transfer(
        if same {
            &debited_source
        } else {
            destination
        },
        mint_address,
        previous_is_memo,
        destination_pubkey,
        &destination_amount_lo,
        &destination_amount_hi,
        fee,
    )?;
    if same {
        Ok((credited_destination, credited_destination))
    } else {
        Ok((debited_source, credited_destination))
    }
}

/// Both accounts after a transfer without fee whose proof context is given.
pub open spec fn transfer_without_fee_outcome(
    source: TokenAccount,
    destination: TokenAccount,
    mint_address: Pubkey,
    config: ConfidentialTransferMint,
    context: TransferProofContext,
    owner_check: Result<(), TransferError>,
    previous_is_memo: bool,
    new_decryptable_available_balance: DecryptableBalance,
) -> Result<(TokenAccount, TokenAccount), TransferError> {
    if !spec_auditor_matches(config.auditor_elgamal_pubkey, context.transfer_pubkeys.auditor) {
        Err(TransferError::ConfidentialTransferElGamalPubkeyMismatch)
    } else {
        both_sides_outcome(
            source,
            destination,
            mint_address,
            owner_check,
            previous_is_memo,
            context.transfer_pubkeys.source,
            context.transfer_pubkeys.destination,
            context.ciphertext_lo,
            context.ciphertext_hi,
            context.new_source_ciphertext,
            new_decryptable_available_balance,
            None,
        )
    }
}

/// Whether the fee schedule that a proof was made for is the mint's
/// schedule for `epoch`.
pub open spec fn spec_fee_parameters_match(
    mint: Mint,
    epoch: u64,
    context: TransferWithFeeProofContext,
) -> bool {
    match mint.transfer_fee {
        None => false,
        Some(config) => {
            let fee = config.spec_get_epoch_fee(epoch);
            fee.maximum_fee == context.fee_parameters.maximum_fee && fee.transfer_fee_basis_points
                == context.fee_parameters.fee_rate_basis_points
        },
    }
}

/// Compares the proof's fee schedule with the mint's for `epoch`.
pub fn fee_parameters_match(mint: &Mint, epoch: u64, context: &TransferWithFeeProofContext) -> (same:
    bool)
    ensures
        same == spec_fee_parameters_match(*mint, epoch, *context),
{
    match &mint.transfer_fee {
        None => false,
        Some(config) => {
            let fee = config.get_epoch_fee(epoch);
            fee.maximum_fee == context.fee_parameters.maximum_fee && fee.transfer_fee_basis_points
                == context.fee_parameters.fee_rate_basis_points
        },
    }
}

/// Both accounts after a transfer with fee whose proof context is given.
/// The proof must have been made for the mint's auditor key, for its
/// withdraw withheld authority key and for its fee schedule in `epoch`.
pub open spec fn transfer_with_fee_outcome(
    source: TokenAccount,
    destination: TokenAccount,
    mint: Mint,
    config: ConfidentialTransferMint,
    context: TransferWithFeeProofContext,
    owner_check: Result<(), TransferError>,
    previous_is_memo: bool,
    epoch: u64,
    new_decryptable_available_balance: DecryptableBalance,
) -> Result<(TokenAccount, TokenAccount), TransferError> {
    if !spec_auditor_matches(
        config.auditor_elgamal_pubkey,
        context.transfer_with_fee_pubkeys.auditor,
    ) {
        Err(TransferError::ConfidentialTransferElGamalPubkeyMismatch)
    } else {
        match mint.confidential_transfer_fee {
            None => Err(TransferError::ExtensionNotFound),
            Some(fee_config) => if context.transfer_with_fee_pubkeys.withdraw_withheld_authority
                != fee_config.withdraw_withheld_authority_elgamal_pubkey {
                Err(TransferError::ConfidentialTransferElGamalPubkeyMismatch)
            } else if mint.transfer_fee is None {
                Err(TransferError::ExtensionNotFound)
            } else if !spec_fee_parameters_match(mint, epoch, context) {
                Err(TransferError::FeeParametersMismatch)
            } else {
                both_sides_outcome(
                    source,
                    destination,
                    mint.address,
                    owner_check,
                    previous_is_memo,
                    context.transfer_with_fee_pubkeys.source,
                    context.transfer_with_fee_pubkeys.destination,
                    context.ciphertext_lo,
                    context.ciphertext_hi,
                    context.new_source_ciphertext,
                    new_decryptable_available_balance,
                    Some((context.fee_ciphertext_lo, context.fee_ciphertext_hi)),
                )
            },
        }
    }
}

/// Both accounts after a transfer, or why the transfer is refused. A mint
/// that charges transfer fees asks for a proof of a transfer with fee,
/// unless source and destination are one account; every other transfer asks
/// for a plain transfer proof.
pub open spec fn transfer_outcome(
    source: TokenAccount,
    destination: TokenAccount,
    mint: Mint,
    proof_source: &ProofSource,
    owner_check: Result<(), TransferError>,
    previous_is_memo: bool,
    epoch: u64,
    new_decryptable_available_balance: DecryptableBalance,
) -> Result<(TokenAccount, TokenAccount), TransferError> {
    if mint.non_transferable {
        Err(TransferError::NonTransferable)
    } else {
        match mint.confidential_transfer {
            None => Err(TransferError::ExtensionNotFound),
            Some(config) => if !spec_fee_required(mint, source.address, destination.address) {
                match spec_verify_transfer_proof(proof_source) {
                    Err(e) => Err(e),
                    Ok(context) => transfer_without_fee_outcome(
                        source,
                        destination,
                        mint.address,
                        config,
                        context,
                        owner_check,
                        previous_is_memo,
                        new_decryptable_available_balance,
                    ),
                }
            } else {
                match spec_verify_transfer_with_fee_proof(proof_source) {
                    Err(e) => Err(e),
                    Ok(context) => transfer_with_fee_outcome(
                        source,
                        destination,
                        mint,
                        config,
                        context,
                        owner_check,
                        previous_is_memo,
                        epoch,
                        new_decryptable_available_balance,
                    ),
                }
            },
        }
    }
}

/// Moves an encrypted amount from the source's available balance to the
/// destination's pending balance. Returns the source and the destination as
/// they are to be written back.
pub fn process_transfer(
    source: &TokenAccount,
    destination: &TokenAccount,
    mint: &Mint,
    proof_source: &ProofSource,
    owner_check: Result<(), TransferError>,
    previous_is_memo: bool,
    epoch: u64,
    new_decryptable_available_balance: DecryptableBalance,
) -> (after: Result<(TokenAccount, TokenAccount), TransferError>)
    ensures
        after == transfer_outcome(
            *source,
            *destination,
            *mint,
            proof_source,
            owner_check,
            previous_is_memo,
            epoch,
            new_decryptable_available_balance,
        ),
{
    if mint.non_transferable {
        return Err(TransferError::NonTransferable);
    }
    let config = match mint.confidential_transfer {
        Some(config) => config,
        None => { return Err(TransferError::ExtensionNotFound); },
    };
    if !fee_required(mint, &source.address, &destination.address) {
        let context = verify_transfer_proof(proof_source)?;
        if !auditor_matches(&config.auditor_elgamal_pubkey, &context.transfer_pubkeys.auditor) {
            return Err(TransferError::ConfidentialTransferElGamalPubkeyMismatch);
        }
        process_both_sides(
            source,
            destination,
            &mint.address,
            owner_check,
            previous_is_memo,
            &context.transfer_pubkeys.source,
            &context.transfer_pubkeys.destination,
            &context.ciphertext_lo,
            &context.ciphertext_hi,
            &context.new_source_ciphertext,
            new_decryptable_available_balance,
            None,
        )
    } else {
        let context = verify_transfer_with_fee_proof(proof_source)?;
        if !auditor_matches(
            &config.auditor_elgamal_pubkey,
            &context.transfer_with_fee_pubkeys.auditor,
        ) {
            return Err(TransferError::ConfidentialTransferElGamalPubkeyMismatch);
        }
        let fee_config = match mint.confidential_transfer_fee {
            Some(fee_config) => fee_config,
            None => { return Err(TransferError::ExtensionNotFound); },
        };
        if !context.transfer_with_fee_pubkeys.withdraw_withheld_authority.same_as(
            &fee_config.withdraw_withheld_authority_elgamal_pubkey,
        ) {
            return Err(TransferError::ConfidentialTransferElGamalPubkeyMismatch);
        }
        if !fee_parameters_match(mint, epoch, &context) {
            return Err(TransferError::FeeParametersMismatch);
        }
        process_both_sides(
            source,
            destination,
            &mint.address,
            owner_check,
            previous_is_memo,
            &context.transfer_with_fee_pubkeys.source,
            &context.transfer_with_fee_pubkeys.destination,
            &context.ciphertext_lo,
            &context.ciphertext_hi,
            &context.new_source_ciphertext,
            new_decryptable_available_balance,
            Some((context.fee_ciphertext_lo, context.fee_ciphertext_hi)),
        )
    }
}

} // verus!
