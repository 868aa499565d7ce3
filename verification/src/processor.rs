//! The transitions. Each handler takes the states it reads, and returns the
//! states it would write or the first reason to refuse; a refusal writes
//! nothing.

use vstd::prelude::*;
use crate::algebra;
use crate::context::{spec_verify_withdraw_proof, verify_withdraw_proof, ProofSource};
use crate::error::TransferError;
use crate::state::{ConfidentialTransferAccount, Mint, TokenAccount};
use crate::types::{DecryptableBalance, ElGamalCiphertext, ElGamalPubkey, Pubkey};

verus! {

/// The largest amount that one deposit or one transfer may carry: 48 bits.
pub const MAXIMUM_DEPOSIT_TRANSFER_AMOUNT: u64 = 0xffff_ffff_ffff;

/// An account that is offered as an authority, and whether it signed.
#[derive(Clone, Copy, Debug, PartialEq, Eq)]
pub struct Signer {
    pub key: Pubkey,
    pub is_signer: bool,
}

/// Checks that a deposit amount fits in 48 bits, and splits it into its low
/// 16 bits and its high 32 bits.
pub fn verify_and_split_deposit_amount(amount: u64) -> (split: Result<(u64, u64), TransferError>)
    ensures
        amount > MAXIMUM_DEPOSIT_TRANSFER_AMOUNT ==> split == Err::<(u64, u64), TransferError>(
            TransferError::MaximumDepositAmountExceeded,
        ),
        amount <= MAXIMUM_DEPOSIT_TRANSFER_AMOUNT ==> split == Ok::<(u64, u64), TransferError>(
            ((amount % 0x1_0000) as u64, (amount / 0x1_0000) as u64),
        ),
{
    if amount > MAXIMUM_DEPOSIT_TRANSFER_AMOUNT {
        return Err(TransferError::MaximumDepositAmountExceeded);
    }
    let deposit_amount_lo: u64 = amount & 0xffff;
    let deposit_amount_hi: u64 = amount >> 16;
    assert(amount & 0xffff == amount % 0x1_0000) by (bit_vector);
    assert(amount >> 16 == amount / 0x1_0000) by (bit_vector);
    Ok((deposit_amount_lo, deposit_amount_hi))
}

/// The account's confidential state after a credit whose two sums are
/// given: a sum that could not be formed refuses the credit, and so does a
/// credit beyond the account's limit of pending credits.
pub open spec fn spec_credited(
    state: ConfidentialTransferAccount,
    pending_lo: Option<ElGamalCiphertext>,
    pending_hi: Option<ElGamalCiphertext>,
) -> Result<ConfidentialTransferAccount, TransferError> {
    match (pending_lo, pending_hi, state.spec_incremented_credit_counter()) {
        (None, _, _) => Err(TransferError::InvalidInstructionData),
        (Some(_), None, _) => Err(TransferError::InvalidInstructionData),
        (Some(_), Some(_), Err(e)) => Err(e),
        (Some(lo), Some(hi), Ok(counter)) => Ok(
            ConfidentialTransferAccount {
                pending_balance_lo: lo,
                pending_balance_hi: hi,
                pending_balance_credit_counter: counter,
                ..state
            },
        ),
    }
}

/// Books a credit whose two sums the caller has formed.
pub fn credited(
    state: &ConfidentialTransferAccount,
    pending_lo: Option<ElGamalCiphertext>,
    pending_hi: Option<ElGamalCiphertext>,
) -> (after: Result<ConfidentialTransferAccount, TransferError>)
    ensures
        after == spec_credited(*state, pending_lo, pending_hi),
{
    let lo = match pending_lo {
        Some(lo) => lo,
        None => { return Err(TransferError::InvalidInstructionData); },
    };
    let hi = match pending_hi {
        Some(hi) => hi,
        None => { return Err(TransferError::InvalidInstructionData); },
    };
    let counter = state.incremented_credit_counter()?;
    let mut after = *state;
    after.pending_balance_lo = lo;
    after.pending_balance_hi = hi;
    after.pending_balance_credit_counter = counter;
    Ok(after)
}

/// The account's confidential state after a debit whose difference is
/// given: the difference must have been formed and must be, byte for byte,
/// the ciphertext that the proof attests.
pub open spec fn spec_debited(
    state: ConfidentialTransferAccount,
    available: Option<ElGamalCiphertext>,
    attested: ElGamalCiphertext,
    new_decryptable_available_balance: DecryptableBalance,
) -> Result<ConfidentialTransferAccount, TransferError> {
    match available {
        None => Err(TransferError::InvalidInstructionData),
        Some(available) => if available != attested {
            Err(TransferError::ConfidentialTransferBalanceMismatch)
        } else {
            Ok(
                ConfidentialTransferAccount {
                    available_balance: available,
                    decryptable_available_balance: new_decryptable_available_balance,
                    ..state
                },
            )
        },
    }
}

/// Books a debit whose difference the caller has formed.
pub fn debited(
    state: &ConfidentialTransferAccount,
    available: Option<ElGamalCiphertext>,
    attested: &ElGamalCiphertext,
    new_decryptable_available_balance: DecryptableBalance,
) -> (after: Result<ConfidentialTransferAccount, TransferError>)
    ensures
        after == spec_debited(*state, available, *attested, new_decryptable_available_balance),
{
    match available {
        None => Err(TransferError::InvalidInstructionData),
        Some(available) => {
            if !available.same_as(attested) {
                Err(TransferError::ConfidentialTransferBalanceMismatch)
            } else {
                let mut after = *state;
                after.available_balance = available;
                after.decryptable_available_balance = new_decryptable_available_balance;
                Ok(after)
            }
        },
    }
}

/// What a deposit or a withdrawal checks of the mint and the account before
/// it looks at any balance.
pub open spec fn spec_plaintext_gate(
    account: TokenAccount,
    mint: Mint,
    owner_check: Result<(), TransferError>,
    expected_decimals: u8,
) -> Result<(), TransferError> {
    if expected_decimals != mint.decimals {
        Err(TransferError::MintDecimalsMismatch)
    } else if mint.non_transferable {
        Err(TransferError::NonTransferable)
    } else if owner_check is Err {
        owner_check
    } else if account.frozen {
        Err(TransferError::AccountFrozen)
    } else if account.mint != mint.address {
        Err(TransferError::MintMismatch)
    } else {
        Ok(())
    }
}

/// Checks the mint and the account before a deposit or a withdrawal.
pub fn plaintext_gate(
    account: &TokenAccount,
    mint: &Mint,
    owner_check: Result<(), TransferError>,
    expected_decimals: u8,
) -> (verdict: Result<(), TransferError>)
    ensures
        verdict == spec_plaintext_gate(*account, *mint, owner_check, expected_decimals),
{
    if expected_decimals != mint.decimals {
        return Err(TransferError::MintDecimalsMismatch);
    }
    if mint.non_transferable {
        return Err(TransferError::NonTransferable);
    }
    if let Err(e) = owner_check {
        return Err(e);
    }
    if account.frozen {
        return Err(TransferError::AccountFrozen);
    }
    if !account.mint.same_as(&mint.address) {
        return Err(TransferError::MintMismatch);
    }
    Ok(())
}

/// The ciphertext with `amount` added; an amount of 0 leaves it as it is.
pub open spec fn credit(ciphertext: ElGamalCiphertext, amount: u64) -> Option<ElGamalCiphertext> {
    if amount > 0 {
        algebra::plus_amount(ciphertext, amount)
    } else {
        Some(ciphertext)
    }
}

/// The ciphertext with `amount` taken away; an amount of 0 leaves it as it
/// is.
pub open spec fn debit(ciphertext: ElGamalCiphertext, amount: u64) -> Option<ElGamalCiphertext> {
    if amount > 0 {
        algebra::minus_amount(ciphertext, amount)
    } else {
        Some(ciphertext)
    }
}

/// What a deposit checks before any ciphertext is touched, and the
/// confidential state and the two parts of the amount that it goes on with.
pub open spec fn spec_deposit_check(
    account: TokenAccount,
    mint: Mint,
    owner_check: Result<(), TransferError>,
    amount: u64,
    expected_decimals: u8,
) -> Result<(ConfidentialTransferAccount, u64, u64), TransferError> {
    match spec_plaintext_gate(account, mint, owner_check, expected_decimals) {
        Err(e) => Err(e),
        Ok(_) => if amount > account.amount {
            Err(TransferError::Overflow)
        } else {
            match account.confidential_transfer {
                None => Err(TransferError::ExtensionNotFound),
                Some(state) => match state.spec_valid_as_destination() {
                    Err(e) => Err(e),
                    Ok(_) => if amount > MAXIMUM_DEPOSIT_TRANSFER_AMOUNT {
                        Err(TransferError::MaximumDepositAmountExceeded)
                    } else {
                        Ok((state, (amount % 0x1_0000) as u64, (amount / 0x1_0000) as u64))
                    },
                },
            }
        },
    }
}

/// Checks a deposit before any ciphertext is touched.
pub fn deposit_check(
    account: &TokenAccount,
    mint: &Mint,
    owner_check: Result<(), TransferError>,
    amount: u64,
    expected_decimals: u8,
) -> (checked: Result<(ConfidentialTransferAccount, u64, u64), TransferError>)
    ensures
        checked == spec_deposit_check(*account, *mint, owner_check, amount, expected_decimals),
{
    plaintext_gate(account, mint, owner_check, expected_decimals)?;
    if amount > account.amount {
        return Err(TransferError::Overflow);
    }
    let state = match account.confidential_transfer {
        Some(state) => state,
        None => { return Err(TransferError::ExtensionNotFound); },
    };
    state.valid_as_destination()?;
    let (amount_lo, amount_hi) = verify_and_split_deposit_amount(amount)?;
    Ok((state, amount_lo, amount_hi))
}

/// The account after a deposit of `amount` whose two sums are given.
pub open spec fn spec_deposit_commit(
    account: TokenAccount,
    amount: u64,
    pending_lo: Option<ElGamalCiphertext>,
    pending_hi: Option<ElGamalCiphertext>,
) -> Result<TokenAccount, TransferError> {
    if amount > account.amount {
        Err(TransferError::Overflow)
    } else {
        match account.confidential_transfer {
            None => Err(TransferError::ExtensionNotFound),
            Some(state) => match spec_credited(state, pending_lo, pending_hi) {
                Err(e) => Err(e),
                Ok(after) => Ok(
                    TokenAccount {
                        amount: (account.amount - amount) as u64,
                        confidential_transfer: Some(after),
                        ..account
                    },
                ),
            },
        }
    }
}

/// Books a deposit whose two sums the caller has formed: the plaintext
/// balance goes down by `amount`, the pending balances become the sums, and
/// the credit counter goes up by one.
pub fn deposit_commit(
    account: &TokenAccount,
    amount: u64,
    pending_lo: Option<ElGamalCiphertext>,
    pending_hi: Option<ElGamalCiphertext>,
) -> (after: Result<TokenAccount, TransferError>)
    ensures
        after == spec_deposit_commit(*account, amount, pending_lo, pending_hi),
{
    if amount > account.amount {
        return Err(TransferError::Overflow);
    }
    let state = match account.confidential_transfer {
        Some(state) => state,
        None => { return Err(TransferError::ExtensionNotFound); },
    };
    let credited_state = credited(&state, pending_lo, pending_hi)?;
    let mut after = *account;
    after.amount = account.amount - amount;
    after.confidential_transfer = Some(credited_state);
    Ok(after)
}

/// The account after a deposit, or why the deposit is refused.
pub open spec fn deposit_outcome(
    account: TokenAccount,
    mint: Mint,
    owner_check: Result<(), TransferError>,
    amount: u64,
    expected_decimals: u8,
) -> Result<TokenAccount, TransferError> {
    match spec_deposit_check(account, mint, owner_check, amount, expected_decimals) {
        Err(e) => Err(e),
        Ok((state, lo, hi)) => spec_deposit_commit(
            account,
            amount,
            credit(state.pending_balance_lo, lo),
            credit(state.pending_balance_hi, hi),
        ),
    }
}

/// Whether a deposit or a withdrawal would reach an account that wraps the
/// native currency. Such an account cannot take part.
pub open spec fn reaches_native_account(
    account: TokenAccount,
    mint: Mint,
    owner_check: Result<(), TransferError>,
    expected_decimals: u8,
) -> bool {
    account.native && spec_plaintext_gate(account, mint, owner_check, expected_decimals) is Ok
}

/// Moves `amount` from the account's plaintext balance into its pending
/// balance.
pub fn process_deposit(
    account: &TokenAccount,
    mint: &Mint,
    owner_check: Result<(), TransferError>,
    amount: u64,
    expected_decimals: u8,
) -> (after: Result<TokenAccount, TransferError>)
    requires
        !reaches_native_account(*account, *mint, owner_check, expected_decimals),
    ensures
        after == deposit_outcome(*account, *mint, owner_check, amount, expected_decimals),
{
    let (state, amount_lo, amount_hi) = deposit_check(
        account,
        mint,
        owner_check,
        amount,
        expected_decimals,
    )?;
    let pending_lo = if amount_lo > 0 {
        algebra::add_to(&state.pending_balance_lo, amount_lo)
    } else {
        Some(state.pending_balance_lo)
    };
    let pending_hi = if amount_hi > 0 {
        algebra::add_to(&state.pending_balance_hi, amount_hi)
    } else {
        Some(state.pending_balance_hi)
    };
    deposit_commit(account, amount, pending_lo, pending_hi)
}

/// What a withdrawal checks before any ciphertext is touched, and the
/// confidential state that it goes on with.
pub open spec fn spec_withdraw_check(
    account: TokenAccount,
    mint: Mint,
    attested_pubkey: ElGamalPubkey,
    owner_check: Result<(), TransferError>,
    expected_decimals: u8,
) -> Result<ConfidentialTransferAccount, TransferError> {
    match spec_plaintext_gate(account, mint, owner_check, expected_decimals) {
        Err(e) => Err(e),
        Ok(_) => match account.confidential_transfer {
            None => Err(TransferError::ExtensionNotFound),
            Some(state) => match state.spec_valid_as_source() {
                Err(e) => Err(e),
                Ok(_) => if state.elgamal_pubkey != attested_pubkey {
                    Err(TransferError::ConfidentialTransferElGamalPubkeyMismatch)
                } else {
                    Ok(state)
                },
            },
        },
    }
}

/// Checks a withdrawal before any ciphertext is touched.
pub fn withdraw_check(
    account: &TokenAccount,
    mint: &Mint,
    attested_pubkey: &ElGamalPubkey,
    owner_check: Result<(), TransferError>,
    expected_decimals: u8,
) -> (checked: Result<ConfidentialTransferAccount, TransferError>)
    ensures
        checked == spec_withdraw_check(
            *account,
            *mint,
            *attested_pubkey,
            owner_check,
            expected_decimals,
        ),
{
    plaintext_gate(account, mint, owner_check, expected_decimals)?;
    let state = match account.confidential_transfer {
        Some(state) => state,
        None => { return Err(TransferError::ExtensionNotFound); },
    };
    state.valid_as_source()?;
    if !state.elgamal_pubkey.same_as(attested_pubkey) {
        return Err(TransferError::ConfidentialTransferElGamalPubkeyMismatch);
    }
    Ok(state)
}

/// The account after a withdrawal of `amount` whose difference is given.
pub open spec fn spec_withdraw_commit(
    account: TokenAccount,
    amount: u64,
    available: Option<ElGamalCiphertext>,
    attested: ElGamalCiphertext,
    new_decryptable_available_balance: DecryptableBalance,
) -> Result<TokenAccount, TransferError> {
    match account.confidential_transfer {
        None => Err(TransferError::ExtensionNotFound),
        Some(state) => match spec_debited(
            state,
            available,
            attested,
            new_decryptable_available_balance,
        ) {
            Err(e) => Err(e),
            Ok(after) => if account.amount + amount > u64::MAX {
                Err(TransferError::Overflow)
            } else {
                Ok(
                    TokenAccount {
                        amount: (account.amount + amount) as u64,
                        confidential_transfer: Some(after),
                        ..account
                    },
                )
            },
        },
    }
}

/// Books a withdrawal whose difference the caller has formed: the available
/// balance becomes the difference, which must be what the proof attests, the
/// owner's hint is replaced, and the plaintext balance goes up by `amount`.
pub fn withdraw_commit(
    account: &TokenAccount,
    amount: u64,
    available: Option<ElGamalCiphertext>,
    attested: &ElGamalCiphertext,
    new_decryptable_available_balance: DecryptableBalance,
) -> (after: Result<TokenAccount, TransferError>)
    ensures
        after == spec_withdraw_commit(
            *account,
            amount,
            available,
            *attested,
            new_decryptable_available_balance,
        ),
{
    let state = match account.confidential_transfer {
        Some(state) => state,
        None => { return Err(TransferError::ExtensionNotFound); },
    };
    let debited_state = debited(&state, available, attested, new_decryptable_available_balance)?;
    let raised = match account.amount.checked_add(amount) {
        Some(raised) => raised,
        None => { return Err(TransferError::Overflow); },
    };
    let mut after = *account;
    after.amount = raised;
    after.confidential_transfer = Some(debited_state);
    Ok(after)
}

/// The account after a withdrawal, or why the withdrawal is refused.
pub open spec fn withdraw_outcome(
    account: TokenAccount,
    mint: Mint,
    proof_source: &ProofSource,
    owner_check: Result<(), TransferError>,
    amount: u64,
    expected_decimals: u8,
    new_decryptable_available_balance: DecryptableBalance,
) -> Result<TokenAccount, TransferError> {
    match spec_verify_withdraw_proof(proof_source) {
        Err(e) => Err(e),
        Ok(context) => match spec_withdraw_check(
            account,
            mint,
            context.pubkey,
            owner_check,
            expected_decimals,
        ) {
            Err(e) => Err(e),
            Ok(state) => spec_withdraw_commit(
                account,
                amount,
                debit(state.available_balance, amount),
                context.final_ciphertext,
                new_decryptable_available_balance,
            ),
        },
    }
}

/// Whether a withdrawal would reach an account that wraps the native
/// currency.
pub open spec fn withdraw_reaches_native_account(
    account: TokenAccount,
    mint: Mint,
    proof_source: &ProofSource,
    owner_check: Result<(), TransferError>,
    expected_decimals: u8,
) -> bool {
    spec_verify_withdraw_proof(proof_source) is Ok && reaches_native_account(
        account,
        mint,
        owner_check,
        expected_decimals,
    )
}

/// Moves `amount` from the account's available balance into its plaintext
/// balance.
pub fn process_withdraw(
    account: &TokenAccount,
    mint: &Mint,
    proof_source: &ProofSource,
    owner_check: Result<(), TransferError>,
    amount: u64,
    expected_decimals: u8,
    new_decryptable_available_balance: DecryptableBalance,
) -> (after: Result<TokenAccount, TransferError>)
    requires
        !withdraw_reaches_native_account(
            *account,
            *mint,
            proof_source,
            owner_check,
            expected_decimals,
        ),
    ensures
        after == withdraw_outcome(
            *account,
            *mint,
            proof_source,
            owner_check,
            amount,
            expected_decimals,
            new_decryptable_available_balance,
        ),
{
    let context = verify_withdraw_proof(proof_source)?;
    let state = withdraw_check(account, mint, &context.pubkey, owner_check, expected_decimals)?;
    let available = if amount > 0 {
        algebra::subtract_from(&state.available_balance, amount)
    } else {
        Some(state.available_balance)
    };
    withdraw_commit(
        account,
        amount,
        available,
        &context.final_ciphertext,
        new_decryptable_available_balance,
    )
}

/// The account after its pending balance is applied, the sum given.
pub open spec fn spec_apply_pending_balance_commit(
    account: TokenAccount,
    available: Option<ElGamalCiphertext>,
    expected_pending_balance_credit_counter: u64,
    new_decryptable_available_balance: DecryptableBalance,
) -> Result<TokenAccount, TransferError> {
    match (account.confidential_transfer, available) {
        (None, _) => Err(TransferError::ExtensionNotFound),
        (Some(_), None) => Err(TransferError::InvalidInstructionData),
        (Some(state), Some(available)) => Ok(
            TokenAccount {
                confidential_transfer: Some(
                    ConfidentialTransferAccount {
                        available_balance: available,
                        actual_pending_balance_credit_counter: state.pending_balance_credit_counter,
                        expected_pending_balance_credit_counter,
                        decryptable_available_balance: new_decryptable_available_balance,
                        pending_balance_credit_counter: 0,
                        pending_balance_lo: ElGamalCiphertext::zeroed(),
                        pending_balance_hi: ElGamalCiphertext::zeroed(),
                        ..state
                    },
                ),
                ..account
            },
        ),
    }
}

/// Books the application of the pending balance, whose sum with the
/// available balance the caller has formed: the sum becomes the available
/// balance, the counter is recorded beside the owner's expectation and
/// reset, and both pending balances become zero.
pub fn apply_pending_balance_commit(
    account: &TokenAccount,
    available: Option<ElGamalCiphertext>,
    expected_pending_balance_credit_counter: u64,
    new_decryptable_available_balance: DecryptableBalance,
) -> (after: Result<TokenAccount, TransferError>)
    ensures
        after == spec_apply_pending_balance_commit(
            *account,
            available,
            expected_pending_balance_credit_counter,
            new_decryptable_available_balance,
        ),
{
    let state = match account.confidential_transfer {
        Some(state) => state,
        None => { return Err(TransferError::ExtensionNotFound); },
    };
    let available = match available {
        Some(available) => available,
        None => { return Err(TransferError::InvalidInstructionData); },
    };
    let mut applied = state;
    applied.available_balance = available;
    applied.actual_pending_balance_credit_counter = state.pending_balance_credit_counter;
    applied.expected_pending_balance_credit_counter = expected_pending_balance_credit_counter;
    applied.decryptable_available_balance = new_decryptable_available_balance;
    applied.pending_balance_credit_counter = 0;
    applied.pending_balance_lo = ElGamalCiphertext::zeroed();
    applied.pending_balance_hi = ElGamalCiphertext::zeroed();
    let mut after = *account;
    after.confidential_transfer = Some(applied);
    Ok(after)
}

/// The account after its pending balance is applied, or why that is
/// refused. A counter that differs from the owner's expectation is recorded,
/// never refused.
pub open spec fn apply_pending_balance_outcome(
    account: TokenAccount,
    owner_check: Result<(), TransferError>,
    expected_pending_balance_credit_counter: u64,
    new_decryptable_available_balance: DecryptableBalance,
) -> Result<TokenAccount, TransferError> {
    match (owner_check, account.confidential_transfer) {
        (Err(e), _) => Err(e),
        (Ok(_), None) => Err(TransferError::ExtensionNotFound),
        (Ok(_), Some(state)) => spec_apply_pending_balance_commit(
            account,
            algebra::sum_lo_hi(
                state.available_balance,
                state.pending_balance_lo,
                state.pending_balance_hi,
            ),
            expected_pending_balance_credit_counter,
            new_decryptable_available_balance,
        ),
    }
}

/// Merges the pending balance into the available balance.
pub fn process_apply_pending_balance(
    account: &TokenAccount,
    owner_check: Result<(), TransferError>,
    expected_pending_balance_credit_counter: u64,
    new_decryptable_available_balance: DecryptableBalance,
) -> (after: Result<TokenAccount, TransferError>)
    ensures
        after == apply_pending_balance_outcome(
            *account,
            owner_check,
            expected_pending_balance_credit_counter,
            new_decryptable_available_balance,
        ),
{
    if let Err(e) = owner_check {
        return Err(e);
    }
    let state = match account.confidential_transfer {
        Some(state) => state,
        None => { return Err(TransferError::ExtensionNotFound); },
    };
    let available = algebra::add_with_lo_hi(
        &state.available_balance,
        &state.pending_balance_lo,
        &state.pending_balance_hi,
    );
    apply_pending_balance_commit(
        account,
        available,
        expected_pending_balance_credit_counter,
        new_decryptable_available_balance,
    )
}

} // verus!
