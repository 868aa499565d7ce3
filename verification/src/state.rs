//! What a mint and a token account hold for confidential transfers, and the
//! rules that say when an account may send, receive or be closed.

use vstd::prelude::*;
use crate::error::TransferError;
use crate::types::{
    DecryptableBalance, ElGamalCiphertext, ElGamalPubkey, EncryptedBalance,
    EncryptedWithheldAmount, Pubkey,
};

verus! {

/// The mint's configuration for confidential transfers.
#[derive(Clone, Copy, Debug, PartialEq, Eq)]
pub struct ConfidentialTransferMint {
    /// Who may change the configuration; `None` fixes it for good.
    pub authority: Option<Pubkey>,
    /// Whether a newly configured account is approved at once.
    pub auto_approve_new_accounts: bool,
    /// The key under which every transfer is also encrypted, if any.
    pub auditor_elgamal_pubkey: Option<ElGamalPubkey>,
}

/// The mint's configuration for confidential transfer fees.
#[derive(Clone, Copy, Debug, PartialEq, Eq)]
pub struct ConfidentialTransferFeeConfig {
    /// The key under which withheld fees are also encrypted.
    pub withdraw_withheld_authority_elgamal_pubkey: ElGamalPubkey,
}

/// A fee schedule that holds from `epoch` on.
#[derive(Clone, Copy, Debug, PartialEq, Eq)]
pub struct TransferFee {
    pub epoch: u64,
    pub maximum_fee: u64,
    pub transfer_fee_basis_points: u16,
}

/// The mint's fee schedules: the one in force and the one that replaces it.
#[derive(Clone, Copy, Debug, PartialEq, Eq)]
pub struct TransferFeeConfig {
    pub older_transfer_fee: TransferFee,
    pub newer_transfer_fee: TransferFee,
}

impl TransferFeeConfig {
    /// The schedule in force in `epoch`: the newer one from its epoch on.
    pub open spec fn spec_get_epoch_fee(&self, epoch: u64) -> TransferFee {
        if epoch >= self.newer_transfer_fee.epoch {
            self.newer_transfer_fee
        } else {
            self.older_transfer_fee
        }
    }

    #[verifier::when_used_as_spec(spec_get_epoch_fee)]
    pub fn get_epoch_fee(&self, epoch: u64) -> (fee: TransferFee)
        ensures
            fee == self.spec_get_epoch_fee(epoch),
    {
        if epoch >= self.newer_transfer_fee.epoch {
            self.newer_transfer_fee
        } else {
            self.older_transfer_fee
        }
    }
}

/// A mint, as far as confidential transfers read it. An extension that the
/// mint does not carry is `None`.
#[derive(Clone, Copy, Debug, PartialEq, Eq)]
pub struct Mint {
    pub address: Pubkey,
    pub decimals: u8,
    pub non_transferable: bool,
    pub confidential_transfer: Option<ConfidentialTransferMint>,
    pub transfer_fee: Option<TransferFeeConfig>,
    pub confidential_transfer_fee: Option<ConfidentialTransferFeeConfig>,
}

/// An account's confidential balances and the gates on their use.
#[derive(Clone, Copy, Debug, PartialEq, Eq)]
pub struct ConfidentialTransferAccount {
    pub approved: bool,
    pub elgamal_pubkey: ElGamalPubkey,
    /// Low 16 bits of the pending credits.
    pub pending_balance_lo: EncryptedBalance,
    /// High 32 bits of the pending credits.
    pub pending_balance_hi: EncryptedBalance,
    pub available_balance: EncryptedBalance,
    pub decryptable_available_balance: DecryptableBalance,
    pub allow_confidential_credits: bool,
    pub allow_non_confidential_credits: bool,
    /// Credits received since the pending balance was last applied.
    pub pending_balance_credit_counter: u64,
    pub maximum_pending_balance_credit_counter: u64,
    /// What the owner expected the counter to be at the last application.
    pub expected_pending_balance_credit_counter: u64,
    /// What the counter was at the last application.
    pub actual_pending_balance_credit_counter: u64,
}

/// The fees withheld from transfers into an account.
#[derive(Clone, Copy, Debug, PartialEq, Eq)]
pub struct ConfidentialTransferFeeAmount {
    pub withheld_amount: EncryptedWithheldAmount,
}

/// A token account, as far as confidential transfers read it. An extension
/// that the account does not carry is `None`.
#[derive(Clone, Copy, Debug, PartialEq, Eq)]
pub struct TokenAccount {
    pub address: Pubkey,
    pub mint: Pubkey,
    pub owner: Pubkey,
    /// The plaintext balance.
    pub amount: u64,
    pub frozen: bool,
    /// Whether the account wraps the network's native currency.
    pub native: bool,
    /// Whether incoming transfers must follow a memo.
    pub memo_required: bool,
    pub confidential_transfer: Option<ConfidentialTransferAccount>,
    pub confidential_transfer_fee: Option<ConfidentialTransferFeeAmount>,
}

impl ConfidentialTransferAccount {
    /// The count of pending credits never passes the account's limit. Every
    /// transition keeps it so.
    pub open spec fn within_credit_limit(&self) -> bool {
        self.pending_balance_credit_counter <= self.maximum_pending_balance_credit_counter
    }

    /// A freshly configured account: zero balances, zero counters, both
    /// kinds of credit allowed.
    pub open spec fn spec_configured(
        elgamal_pubkey: ElGamalPubkey,
        approved: bool,
        decryptable_zero_balance: DecryptableBalance,
        maximum_pending_balance_credit_counter: u64,
    ) -> ConfidentialTransferAccount {
        ConfidentialTransferAccount {
            approved,
            elgamal_pubkey,
            pending_balance_lo: ElGamalCiphertext::zeroed(),
            pending_balance_hi: ElGamalCiphertext::zeroed(),
            available_balance: ElGamalCiphertext::zeroed(),
            decryptable_available_balance: decryptable_zero_balance,
            allow_confidential_credits: true,
            allow_non_confidential_credits: true,
            pending_balance_credit_counter: 0,
            maximum_pending_balance_credit_counter,
            expected_pending_balance_credit_counter: 0,
            actual_pending_balance_credit_counter: 0,
        }
    }

    #[verifier::when_used_as_spec(spec_configured)]
    pub fn configured(
        elgamal_pubkey: ElGamalPubkey,
        approved: bool,
        decryptable_zero_balance: DecryptableBalance,
        maximum_pending_balance_credit_counter: u64,
    ) -> (account: ConfidentialTransferAccount)
        ensures
            account == Self::spec_configured(
                elgamal_pubkey,
                approved,
                decryptable_zero_balance,
                maximum_pending_balance_credit_counter,
            ),
    {
        ConfidentialTransferAccount {
            approved,
            elgamal_pubkey,
            pending_balance_lo: ElGamalCiphertext::zeroed(),
            pending_balance_hi: ElGamalCiphertext::zeroed(),
            available_balance: ElGamalCiphertext::zeroed(),
            decryptable_available_balance: decryptable_zero_balance,
            allow_confidential_credits: true,
            allow_non_confidential_credits: true,
            pending_balance_credit_counter: 0,
            maximum_pending_balance_credit_counter,
            expected_pending_balance_credit_counter: 0,
            actual_pending_balance_credit_counter: 0,
        }
    }

    /// An account may send once it is approved.
    pub open spec fn spec_valid_as_source(&self) -> Result<(), TransferError> {
        if self.approved {
            Ok(())
        } else {
            Err(TransferError::ConfidentialTransferAccountNotApproved)
        }
    }

    #[verifier::when_used_as_spec(spec_valid_as_source)]
    pub fn valid_as_source(&self) -> (verdict: Result<(), TransferError>)
        ensures
            verdict == self.spec_valid_as_source(),
    {
        if self.approved {
            Ok(())
        } else {
            Err(TransferError::ConfidentialTransferAccountNotApproved)
        }
    }

    /// An account may receive once it is approved and while it allows
    /// confidential credits.
    pub open spec fn spec_valid_as_destination(&self) -> Result<(), TransferError> {
        if !self.approved {
            Err(TransferError::ConfidentialTransferAccountNotApproved)
        } else if !self.allow_confidential_credits {
            Err(TransferError::ConfidentialTransferDepositsAndTransfersDisabled)
        } else {
            Ok(())
        }
    }

    #[verifier::when_used_as_spec(spec_valid_as_destination)]
    pub fn valid_as_destination(&self) -> (verdict: Result<(), TransferError>)
        ensures
            verdict == self.spec_valid_as_destination(),
    {
        if !self.approved {
            Err(TransferError::ConfidentialTransferAccountNotApproved)
        } else if !self.allow_confidential_credits {
            Err(TransferError::ConfidentialTransferDepositsAndTransfersDisabled)
        } else {
            Ok(())
        }
    }

    /// Whether the account accepts plaintext credits.
    pub open spec fn spec_non_confidential_transfer_allowed(&self) -> Result<(), TransferError> {
        if self.allow_non_confidential_credits {
            Ok(())
        } else {
            Err(TransferError::NonConfidentialTransfersDisabled)
        }
    }

    #[verifier::when_used_as_spec(spec_non_confidential_transfer_allowed)]
    pub fn non_confidential_transfer_allowed(&self) -> (verdict: Result<(), TransferError>)
        ensures
            verdict == self.spec_non_confidential_transfer_allowed(),
    {
        if self.allow_non_confidential_credits {
            Ok(())
        } else {
            Err(TransferError::NonConfidentialTransfersDisabled)
        }
    }

    /// The counter after one more credit, as long as it stays within the
    /// account's limit.
    pub open spec fn spec_incremented_credit_counter(&self) -> Result<u64, TransferError> {
        if self.pending_balance_credit_counter == u64::MAX {
            Err(TransferError::Overflow)
        } else if self.pending_balance_credit_counter + 1
            > self.maximum_pending_balance_credit_counter {
            Err(TransferError::MaximumPendingBalanceCreditCounterExceeded)
        } else {
            Ok((self.pending_balance_credit_counter + 1) as u64)
        }
    }

    #[verifier::when_used_as_spec(spec_incremented_credit_counter)]
    pub fn incremented_credit_counter(&self) -> (counter: Result<u64, TransferError>)
        ensures
            counter == self.spec_incremented_credit_counter(),
    {
        match self.pending_balance_credit_counter.checked_add(1) {
            None => Err(TransferError::Overflow),
            Some(next) => {
                if next > self.maximum_pending_balance_credit_counter {
                    Err(TransferError::MaximumPendingBalanceCreditCounterExceeded)
                } else {
                    Ok(next)
                }
            },
        }
    }

    /// Whether both pending balances and the available balance are the zero
    /// ciphertext.
    pub open spec fn spec_balances_are_zero(&self) -> bool {
        &&& self.pending_balance_lo == ElGamalCiphertext::zeroed()
        &&& self.pending_balance_hi == ElGamalCiphertext::zeroed()
        &&& self.available_balance == ElGamalCiphertext::zeroed()
    }

    #[verifier::when_used_as_spec(spec_balances_are_zero)]
    pub fn balances_are_zero(&self) -> (zero: bool)
        ensures
            zero == self.spec_balances_are_zero(),
    {
        self.pending_balance_lo.is_zero() && self.pending_balance_hi.is_zero()
            && self.available_balance.is_zero()
    }
}

impl TokenAccount {
    /// Whether the account's confidential state, if it has one, is within
    /// its limit of pending credits.
    pub open spec fn within_credit_limit(&self) -> bool {
        self.confidential_transfer matches Some(state) ==> state.within_credit_limit()
    }
}

/// An account can be closed when its pending balances, its available balance
/// and, where it has one, its withheld fee amount are all the zero ciphertext.
pub open spec fn spec_closable(
    account: &ConfidentialTransferAccount,
    fee_amount: &Option<ConfidentialTransferFeeAmount>,
) -> Result<(), TransferError> {
    if account.balances_are_zero() && (*fee_amount matches Some(fee) ==> fee.withheld_amount
        == ElGamalCiphertext::zeroed()) {
        Ok(())
    } else {
        Err(TransferError::ConfidentialTransferAccountHasBalance)
    }
}

#[verifier::when_used_as_spec(spec_closable)]
pub fn closable(
    account: &ConfidentialTransferAccount,
    fee_amount: &Option<ConfidentialTransferFeeAmount>,
) -> (verdict: Result<(), TransferError>)
    ensures
        verdict == spec_closable(account, fee_amount),
{
    let fee_is_zero = match fee_amount {
        Some(fee) => fee.withheld_amount.is_zero(),
        None => true,
    };
    if account.balances_are_zero() && fee_is_zero {
        Ok(())
    } else {
        Err(TransferError::ConfidentialTransferAccountHasBalance)
    }
}

} // verus!
