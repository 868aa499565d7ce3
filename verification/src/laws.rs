//! What holds of the transitions, whatever the states and the arguments.

use vstd::prelude::*;
use crate::account::{
    allow_confidential_credits_outcome, allow_non_confidential_credits_outcome,
    approve_account_outcome, configure_account_outcome, empty_account_outcome,
};
use crate::algebra;
use crate::context::{
    spec_verify_configure_account_proof, spec_verify_empty_account_proof,
    spec_verify_transfer_proof, spec_verify_transfer_with_fee_proof, spec_verify_withdraw_proof,
    EncryptedFee, ProofKind, ProofSource,
};
use crate::error::TransferError;
use crate::processor::{
    apply_pending_balance_outcome, credit, deposit_outcome, spec_credited, spec_plaintext_gate,
    withdraw_outcome, Signer, MAXIMUM_DEPOSIT_TRANSFER_AMOUNT,
};
use crate::state::{ConfidentialTransferAccount, Mint, TokenAccount};
use crate::transfer::{
    destination_outcome, source_outcome, spec_fee_required, transfer_outcome,
    transfer_without_fee_outcome,
};
use crate::types::{DecryptableBalance, ElGamalCiphertext, ElGamalPubkey, Pubkey};

verus! {

/// A deposit of up to 48 bits that is then applied ends in the available
/// balance: the plaintext balance is down by the amount, the available
/// balance is the old one plus the old pending balances with the amount's
/// two parts added, the owner's hint is the one supplied, and nothing is
/// pending any more.
pub proof fn law_deposit_then_apply(
    account: TokenAccount,
    mint: Mint,
    amount: u64,
    decimals: u8,
    expected_pending_balance_credit_counter: u64,
    hint: DecryptableBalance,
)
    requires
        amount <= MAXIMUM_DEPOSIT_TRANSFER_AMOUNT,
        deposit_outcome(account, mint, Ok(()), amount, decimals) is Ok,
        apply_pending_balance_outcome(
            deposit_outcome(account, mint, Ok(()), amount, decimals)->Ok_0,
            Ok(()),
            expected_pending_balance_credit_counter,
            hint,
        ) is Ok,
    ensures
        ({
            let before = account.confidential_transfer->0;
            let applied = apply_pending_balance_outcome(
                deposit_outcome(account, mint, Ok(()), amount, decimals)->Ok_0,
                Ok(()),
                expected_pending_balance_credit_counter,
                hint,
            )->Ok_0;
            let after = applied.confidential_transfer->0;
            &&& account.confidential_transfer is Some
            &&& applied.confidential_transfer is Some
            &&& applied.amount == account.amount - amount
            &&& credit(before.pending_balance_lo, (amount % 0x1_0000) as u64) is Some
            &&& credit(before.pending_balance_hi, (amount / 0x1_0000) as u64) is Some
            &&& Some(after.available_balance) == algebra::sum_lo_hi(
                before.available_balance,
                credit(before.pending_balance_lo, (amount % 0x1_0000) as u64)->0,
                credit(before.pending_balance_hi, (amount / 0x1_0000) as u64)->0,
            )
            &&& after.decryptable_available_balance == hint
            &&& after.pending_balance_lo == ElGamalCiphertext::zeroed()
            &&& after.pending_balance_hi == ElGamalCiphertext::zeroed()
            &&& after.pending_balance_credit_counter == 0
            &&& after.actual_pending_balance_credit_counter == before.pending_balance_credit_counter
                + 1
            &&& after.expected_pending_balance_credit_counter
                == expected_pending_balance_credit_counter
        }),
{
}

/// A deposit of more than 48 bits is always refused, and for its size as
/// soon as nothing else is wrong with the mint, the account or the plaintext
/// balance.
pub proof fn law_deposit_above_bound(
    account: TokenAccount,
    mint: Mint,
    owner_check: Result<(), TransferError>,
    amount: u64,
    decimals: u8,
)
    requires
        amount > MAXIMUM_DEPOSIT_TRANSFER_AMOUNT,
    ensures
        deposit_outcome(account, mint, owner_check, amount, decimals) is Err,
        (spec_plaintext_gate(account, mint, owner_check, decimals) is Ok && amount <= account.amount
            && account.confidential_transfer is Some
            && account.confidential_transfer->0.spec_valid_as_destination() is Ok)
            ==> deposit_outcome(account, mint, owner_check, amount, decimals) == Err::<
            TokenAccount,
            TransferError,
        >(TransferError::MaximumDepositAmountExceeded),
{
}

/// A transfer from an account to itself never takes the path with fee,
/// whatever the mint charges: it is decided by a plain transfer proof, both
/// results are the one account, and neither its withheld fees nor its
/// plaintext balance change.
pub proof fn law_self_transfer_takes_no_fee(
    source: TokenAccount,
    destination: TokenAccount,
    mint: Mint,
    proof_source: &ProofSource,
    owner_check: Result<(), TransferError>,
    previous_is_memo: bool,
    epoch: u64,
    hint: DecryptableBalance,
)
    requires
        source.address == destination.address,
    ensures
        ({
            let outcome = transfer_outcome(
                source,
                destination,
                mint,
                proof_source,
                owner_check,
                previous_is_memo,
                epoch,
                hint,
            );
            &&& (!mint.non_transferable && mint.confidential_transfer is Some
                && spec_verify_transfer_proof(proof_source) is Ok) ==> outcome
                == transfer_without_fee_outcome(
                source,
                destination,
                mint.address,
                mint.confidential_transfer->0,
                spec_verify_transfer_proof(proof_source)->Ok_0,
                owner_check,
                previous_is_memo,
                hint,
            )
            &&& spec_verify_transfer_proof(proof_source) is Err ==> outcome is Err
            &&& outcome matches Ok((source_after, destination_after)) ==> {
                &&& source_after == destination_after
                &&& source_after.confidential_transfer_fee == source.confidential_transfer_fee
                &&& source_after.amount == source.amount
            }
        }),
{
}

/// An account that has reached its limit of pending credits takes no
/// further credit until its pending balance is applied: neither a deposit
/// nor an incoming transfer.
pub proof fn law_credit_beyond_limit(
    account: TokenAccount,
    mint: Mint,
    owner_check: Result<(), TransferError>,
    amount: u64,
    decimals: u8,
    previous_is_memo: bool,
    attested_pubkey: ElGamalPubkey,
    amount_lo: ElGamalCiphertext,
    amount_hi: ElGamalCiphertext,
    fee: Option<(EncryptedFee, EncryptedFee)>,
)
    requires
        account.confidential_transfer is Some,
        account.confidential_transfer->0.pending_balance_credit_counter
            >= account.confidential_transfer->0.maximum_pending_balance_credit_counter,
    ensures
        deposit_outcome(account, mint, owner_check, amount, decimals) is Err,
        destination_outcome(
            account,
            mint.address,
            previous_is_memo,
            attested_pubkey,
            amount_lo,
            amount_hi,
            fee,
        ) is Err,
{
}

/// With both sums formed and the counter short of 64 bits, a credit beyond
/// the limit is refused for that reason.
pub proof fn law_credit_counter_exceeded(
    state: ConfidentialTransferAccount,
    pending_lo: ElGamalCiphertext,
    pending_hi: ElGamalCiphertext,
)
    requires
        state.pending_balance_credit_counter >= state.maximum_pending_balance_credit_counter,
        state.pending_balance_credit_counter < u64::MAX,
    ensures
        spec_credited(state, Some(pending_lo), Some(pending_hi)) == Err::<
            ConfidentialTransferAccount,
            TransferError,
        >(TransferError::MaximumPendingBalanceCreditCounterExceeded),
{
}

/// A source that holds the context of a proof of one kind holds none of any
/// other kind: asked for another, it answers that the argument or the
/// instruction data is invalid.
pub proof fn law_wrong_kind_of_proof(source: &ProofSource, held: ProofKind, wanted: ProofKind)
    requires
        held != wanted,
        source.context_offset(held) is Ok,
    ensures
        source.context_offset(wanted) == Err::<int, TransferError>(TransferError::InvalidArgument)
            || source.context_offset(wanted) == Err::<int, TransferError>(
            TransferError::InvalidInstructionData,
        ),
{
}

/// An instruction whose proof context cannot be resolved is refused, and
/// with the resolver's own reason where the proof is asked for first.
pub proof fn law_unresolved_proof_refuses(
    account: TokenAccount,
    destination: TokenAccount,
    mint: Mint,
    proof_source: &ProofSource,
    owner_check: Result<(), TransferError>,
    amount: u64,
    decimals: u8,
    maximum_pending_balance_credit_counter: u64,
    previous_is_memo: bool,
    epoch: u64,
    hint: DecryptableBalance,
)
    ensures
        spec_verify_configure_account_proof(proof_source) matches Err(e)
            ==> configure_account_outcome(
            account,
            mint,
            proof_source,
            owner_check,
            hint,
            maximum_pending_balance_credit_counter,
        ) == Err::<TokenAccount, TransferError>(e),
        spec_verify_empty_account_proof(proof_source) matches Err(e) ==> empty_account_outcome(
            account,
            proof_source,
            owner_check,
        ) == Err::<TokenAccount, TransferError>(e),
        spec_verify_withdraw_proof(proof_source) matches Err(e) ==> withdraw_outcome(
            account,
            mint,
            proof_source,
            owner_check,
            amount,
            decimals,
            hint,
        ) == Err::<TokenAccount, TransferError>(e),
        (source_holds_no_transfer_context(proof_source)) ==> transfer_outcome(
            account,
            destination,
            mint,
            proof_source,
            owner_check,
            previous_is_memo,
            epoch,
            hint,
        ) is Err,
        (!mint.non_transferable && mint.confidential_transfer is Some && !spec_fee_required(
            mint,
            account.address,
            destination.address,
        )) ==> (spec_verify_transfer_proof(proof_source) matches Err(e) ==> transfer_outcome(
            account,
            destination,
            mint,
            proof_source,
            owner_check,
            previous_is_memo,
            epoch,
            hint,
        ) == Err::<(TokenAccount, TokenAccount), TransferError>(e)),
        (!mint.non_transferable && mint.confidential_transfer is Some && spec_fee_required(
            mint,
            account.address,
            destination.address,
        )) ==> (spec_verify_transfer_with_fee_proof(proof_source) matches Err(e)
            ==> transfer_outcome(
            account,
            destination,
            mint,
            proof_source,
            owner_check,
            previous_is_memo,
            epoch,
            hint,
        ) == Err::<(TokenAccount, TokenAccount), TransferError>(e)),
{
}

/// Whether the source holds the context neither of a transfer proof nor of
/// a proof of a transfer with fee.
pub open spec fn source_holds_no_transfer_context(source: &ProofSource) -> bool {
    source.context_offset(ProofKind::Transfer) is Err && source.context_offset(
        ProofKind::TransferWithFee,
    ) is Err
}

/// Once the proof matches the account's key and available balance and the
/// owner has signed, emptying the account succeeds exactly when both
/// pending balances and, where the account withholds fees, the withheld
/// amount are the zero ciphertext; otherwise it is refused because the
/// account has a balance. After success every balance is the zero
/// ciphertext.
pub proof fn law_empty_account_needs_zero_balances(account: TokenAccount, proof_source: &ProofSource)
    requires
        spec_verify_empty_account_proof(proof_source) is Ok,
        account.confidential_transfer is Some,
        account.confidential_transfer->0.elgamal_pubkey == spec_verify_empty_account_proof(
            proof_source,
        )->Ok_0.pubkey,
        account.confidential_transfer->0.available_balance == spec_verify_empty_account_proof(
            proof_source,
        )->Ok_0.ciphertext,
    ensures
        ({
            let state = account.confidential_transfer->0;
            let outcome = empty_account_outcome(account, proof_source, Ok(()));
            let all_zero = state.pending_balance_lo == ElGamalCiphertext::zeroed()
                && state.pending_balance_hi == ElGamalCiphertext::zeroed() && (
            account.confidential_transfer_fee matches Some(fee) ==> fee.withheld_amount
                == ElGamalCiphertext::zeroed());
            &&& all_zero <==> outcome is Ok
            &&& !all_zero <==> outcome == Err::<TokenAccount, TransferError>(
                TransferError::ConfidentialTransferAccountHasBalance,
            )
            &&& outcome matches Ok(after) ==> {
                &&& after.confidential_transfer is Some
                &&& after.confidential_transfer->0.spec_balances_are_zero()
                &&& after.confidential_transfer_fee == account.confidential_transfer_fee
            }
        }),
{
}

/// Whatever the proof and the signers, an account is emptied only if its
/// pending balances and its withheld fees are the zero ciphertext.
pub proof fn law_empty_account_refuses_balances(
    account: TokenAccount,
    proof_source: &ProofSource,
    owner_check: Result<(), TransferError>,
)
    requires
        empty_account_outcome(account, proof_source, owner_check) is Ok,
    ensures
        account.confidential_transfer is Some,
        account.confidential_transfer->0.pending_balance_lo == ElGamalCiphertext::zeroed(),
        account.confidential_transfer->0.pending_balance_hi == ElGamalCiphertext::zeroed(),
        account.confidential_transfer_fee matches Some(fee) ==> fee.withheld_amount
            == ElGamalCiphertext::zeroed(),
{
}

/// The count of pending credits goes up by one with every credit, never
/// beyond the account's limit, and is left alone by every debit.
pub proof fn law_credit_counter_counts_credits(
    account: TokenAccount,
    mint: Mint,
    proof_source: &ProofSource,
    owner_check: Result<(), TransferError>,
    amount: u64,
    decimals: u8,
    previous_is_memo: bool,
    attested_pubkey: ElGamalPubkey,
    amount_lo: ElGamalCiphertext,
    amount_hi: ElGamalCiphertext,
    attested_available_balance: ElGamalCiphertext,
    fee: Option<(EncryptedFee, EncryptedFee)>,
    hint: DecryptableBalance,
)
    ensures
        deposit_outcome(account, mint, owner_check, amount, decimals) matches Ok(after)
            ==> counted_one_more(account, after),
        destination_outcome(
            account,
            mint.address,
            previous_is_memo,
            attested_pubkey,
            amount_lo,
            amount_hi,
            fee,
        ) matches Ok(after) ==> counted_one_more(account, after),
        withdraw_outcome(account, mint, proof_source, owner_check, amount, decimals, hint) matches Ok(
            after,
        ) ==> same_count(account, after),
        source_outcome(
            account,
            mint.address,
            owner_check,
            attested_pubkey,
            amount_lo,
            amount_hi,
            attested_available_balance,
            hint,
        ) matches Ok(after) ==> same_count(account, after),
{
}

/// Whether `after` has counted exactly one credit more than `before`, within
/// its limit.
pub open spec fn counted_one_more(before: TokenAccount, after: TokenAccount) -> bool {
    &&& before.confidential_transfer is Some
    &&& after.confidential_transfer is Some
    &&& after.confidential_transfer->0.pending_balance_credit_counter
        == before.confidential_transfer->0.pending_balance_credit_counter + 1
    &&& after.confidential_transfer->0.pending_balance_credit_counter
        <= after.confidential_transfer->0.maximum_pending_balance_credit_counter
    &&& after.confidential_transfer->0.maximum_pending_balance_credit_counter
        == before.confidential_transfer->0.maximum_pending_balance_credit_counter
}

/// Whether `after` has the count of pending credits and the pending
/// balances of `before`.
pub open spec fn same_count(before: TokenAccount, after: TokenAccount) -> bool {
    &&& before.confidential_transfer is Some
    &&& after.confidential_transfer is Some
    &&& after.confidential_transfer->0.pending_balance_credit_counter
        == before.confidential_transfer->0.pending_balance_credit_counter
    &&& after.confidential_transfer->0.pending_balance_lo
        == before.confidential_transfer->0.pending_balance_lo
    &&& after.confidential_transfer->0.pending_balance_hi
        == before.confidential_transfer->0.pending_balance_hi
}

/// Applying the pending balance is what resets the count of pending
/// credits: it records the count beside the owner's expectation, whatever
/// that is, and starts again from 0 with nothing pending.
pub proof fn law_apply_resets_credit_counter(
    account: TokenAccount,
    owner_check: Result<(), TransferError>,
    expected_pending_balance_credit_counter: u64,
    hint: DecryptableBalance,
)
    requires
        apply_pending_balance_outcome(
            account,
            owner_check,
            expected_pending_balance_credit_counter,
            hint,
        ) is Ok,
    ensures
        ({
            let after = apply_pending_balance_outcome(
                account,
                owner_check,
                expected_pending_balance_credit_counter,
                hint,
            )->Ok_0;
            &&& account.confidential_transfer is Some
            &&& after.confidential_transfer is Some
            &&& after.confidential_transfer->0.pending_balance_credit_counter == 0
            &&& after.confidential_transfer->0.actual_pending_balance_credit_counter
                == account.confidential_transfer->0.pending_balance_credit_counter
            &&& after.confidential_transfer->0.expected_pending_balance_credit_counter
                == expected_pending_balance_credit_counter
            &&& after.confidential_transfer->0.pending_balance_lo == ElGamalCiphertext::zeroed()
            &&& after.confidential_transfer->0.pending_balance_hi == ElGamalCiphertext::zeroed()
            &&& after.amount == account.amount
        }),
{
}

/// No transition takes an account beyond its limit of pending credits: an
/// account that is within the limit, as every newly configured account is,
/// stays within it.
pub proof fn law_credit_limit_is_kept(
    account: TokenAccount,
    destination: TokenAccount,
    mint: Mint,
    authority: Signer,
    proof_source: &ProofSource,
    owner_check: Result<(), TransferError>,
    amount: u64,
    decimals: u8,
    counter: u64,
    previous_is_memo: bool,
    epoch: u64,
    allow: bool,
    hint: DecryptableBalance,
)
    requires
        account.within_credit_limit(),
        destination.within_credit_limit(),
    ensures
        configure_account_outcome(account, mint, proof_source, owner_check, hint, counter) matches Ok(
            after,
        ) ==> after.within_credit_limit(),
        approve_account_outcome(account, mint, authority) matches Ok(after)
            ==> after.within_credit_limit(),
        empty_account_outcome(account, proof_source, owner_check) matches Ok(after)
            ==> after.within_credit_limit(),
        deposit_outcome(account, mint, owner_check, amount, decimals) matches Ok(after)
            ==> after.within_credit_limit(),
        withdraw_outcome(account, mint, proof_source, owner_check, amount, decimals, hint) matches Ok(
            after,
        ) ==> after.within_credit_limit(),
        apply_pending_balance_outcome(account, owner_check, counter, hint) matches Ok(after)
            ==> after.within_credit_limit(),
        allow_confidential_credits_outcome(account, owner_check, allow) matches Ok(after)
            ==> after.within_credit_limit(),
        allow_non_confidential_credits_outcome(account, owner_check, allow) matches Ok(after)
            ==> after.within_credit_limit(),
        transfer_outcome(
            account,
            destination,
            mint,
            proof_source,
            owner_check,
            previous_is_memo,
            epoch,
            hint,
        ) matches Ok((source_after, destination_after)) ==> source_after.within_credit_limit()
            && destination_after.within_credit_limit(),
{
}

/// Debiting the source of a transfer replaces its available balance and
/// the owner's hint, and nothing else: not the plaintext balance, not a
/// pending balance, not a counter, not the withheld fees.
pub proof fn law_source_side_touches_only_available_balance(
    account: TokenAccount,
    mint_address: Pubkey,
    owner_check: Result<(), TransferError>,
    attested_pubkey: ElGamalPubkey,
    amount_lo: ElGamalCiphertext,
    amount_hi: ElGamalCiphertext,
    attested_available_balance: ElGamalCiphertext,
    hint: DecryptableBalance,
)
    requires
        source_outcome(
            account,
            mint_address,
            owner_check,
            attested_pubkey,
            amount_lo,
            amount_hi,
            attested_available_balance,
            hint,
        ) is Ok,
    ensures
        ({
            let after = source_outcome(
                account,
                mint_address,
                owner_check,
                attested_pubkey,
                amount_lo,
                amount_hi,
                attested_available_balance,
                hint,
            )->Ok_0;
            &&& account.confidential_transfer is Some
            &&& after == TokenAccount {
                confidential_transfer: Some(
                    ConfidentialTransferAccount {
                        available_balance: attested_available_balance,
                        decryptable_available_balance: hint,
                        ..account.confidential_transfer->0
                    },
                ),
                ..account
            }
        }),
{
}

/// Crediting the destination of a transfer replaces its pending balances,
/// counts one credit and, where a fee is due, replaces its withheld fees,
/// and nothing else: not the plaintext balance, not the available balance,
/// not the owner's hint.
pub proof fn law_destination_side_touches_only_pending_balance(
    account: TokenAccount,
    mint_address: Pubkey,
    previous_is_memo: bool,
    attested_pubkey: ElGamalPubkey,
    amount_lo: ElGamalCiphertext,
    amount_hi: ElGamalCiphertext,
    fee: Option<(EncryptedFee, EncryptedFee)>,
)
    requires
        destination_outcome(
            account,
            mint_address,
            previous_is_memo,
            attested_pubkey,
            amount_lo,
            amount_hi,
            fee,
        ) is Ok,
    ensures
        ({
            let after = destination_outcome(
                account,
                mint_address,
                previous_is_memo,
                attested_pubkey,
                amount_lo,
                amount_hi,
                fee,
            )->Ok_0;
            &&& account.confidential_transfer is Some
            &&& after.confidential_transfer is Some
            &&& after == TokenAccount {
                confidential_transfer: Some(
                    ConfidentialTransferAccount {
                        pending_balance_lo: after.confidential_transfer->0.pending_balance_lo,
                        pending_balance_hi: after.confidential_transfer->0.pending_balance_hi,
                        pending_balance_credit_counter: (
                        account.confidential_transfer->0.pending_balance_credit_counter
                            + 1) as u64,
                        ..account.confidential_transfer->0
                    },
                ),
                confidential_transfer_fee: after.confidential_transfer_fee,
                ..account
            }
            &&& fee is None ==> after.confidential_transfer_fee == account.confidential_transfer_fee
        }),
{
}

/// The account with another hint stored for its owner.
pub open spec fn with_hint(account: TokenAccount, hint: DecryptableBalance) -> TokenAccount {
    match account.confidential_transfer {
        Some(state) => TokenAccount {
            confidential_transfer: Some(
                ConfidentialTransferAccount { decryptable_available_balance: hint, ..state },
            ),
            ..account
        },
        None => account,
    }
}

/// Whether two outcomes are both a success, or both the same refusal.
pub open spec fn same_verdict<T>(
    one: Result<T, TransferError>,
    other: Result<T, TransferError>,
) -> bool {
    match (one, other) {
        (Ok(_), Ok(_)) => true,
        (Err(e), Err(f)) => e == f,
        _ => false,
    }
}

/// The hint kept for the owner decides nothing: neither the hint that an
/// account stores nor the one that an instruction brings changes whether the
/// instruction is accepted or why it is refused.
pub proof fn law_hint_decides_nothing(
    account: TokenAccount,
    mint: Mint,
    proof_source: &ProofSource,
    owner_check: Result<(), TransferError>,
    amount: u64,
    decimals: u8,
    counter: u64,
    stored: DecryptableBalance,
    brought: DecryptableBalance,
    other: DecryptableBalance,
)
    ensures
        same_verdict(
            deposit_outcome(account, mint, owner_check, amount, decimals),
            deposit_outcome(with_hint(account, stored), mint, owner_check, amount, decimals),
        ),
        same_verdict(
            withdraw_outcome(account, mint, proof_source, owner_check, amount, decimals, brought),
            withdraw_outcome(
                with_hint(account, stored),
                mint,
                proof_source,
                owner_check,
                amount,
                decimals,
                other,
            ),
        ),
        same_verdict(
            apply_pending_balance_outcome(account, owner_check, counter, brought),
            apply_pending_balance_outcome(with_hint(account, stored), owner_check, counter, other),
        ),
        same_verdict(
            empty_account_outcome(account, proof_source, owner_check),
            empty_account_outcome(with_hint(account, stored), proof_source, owner_check),
        ),
{
}

/// The same holds of a transfer, on each of its sides.
pub proof fn law_hint_decides_no_transfer(
    account: TokenAccount,
    mint_address: Pubkey,
    owner_check: Result<(), TransferError>,
    previous_is_memo: bool,
    attested_pubkey: ElGamalPubkey,
    amount_lo: ElGamalCiphertext,
    amount_hi: ElGamalCiphertext,
    attested_available_balance: ElGamalCiphertext,
    fee: Option<(EncryptedFee, EncryptedFee)>,
    stored: DecryptableBalance,
    brought: DecryptableBalance,
    other: DecryptableBalance,
)
    ensures
        same_verdict(
            source_outcome(
                account,
                mint_address,
                owner_check,
                attested_pubkey,
                amount_lo,
                amount_hi,
                attested_available_balance,
                brought,
            ),
            source_outcome(
                with_hint(account, stored),
                mint_address,
                owner_check,
                attested_pubkey,
                amount_lo,
                amount_hi,
                attested_available_balance,
                other,
            ),
        ),
        same_verdict(
            destination_outcome(
                account,
                mint_address,
                previous_is_memo,
                attested_pubkey,
                amount_lo,
                amount_hi,
                fee,
            ),
            destination_outcome(
                with_hint(account, stored),
                mint_address,
                previous_is_memo,
                attested_pubkey,
                amount_lo,
                amount_hi,
                fee,
            ),
        ),
{
}

} // verus!
