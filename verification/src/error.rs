//! The reasons for which an instruction can be refused.

use vstd::prelude::*;

verus! {

/// Why an instruction was refused. A refused instruction leaves every state
/// it was given untouched.
#[derive(Clone, Copy, Debug, PartialEq, Eq)]
pub enum TransferError {
    /// The instruction bytes, a proof instruction or a ciphertext operand is malformed.
    InvalidInstructionData,
    /// A proof context record does not have the layout of the expected kind.
    InvalidArgument,
    /// A proof account or proof instruction does not belong to the proof program.
    IncorrectProgramId,
    /// The required authority did not sign.
    MissingRequiredSignature,
    /// The signer is not the stored authority.
    OwnerMismatch,
    /// The mint's configuration has no authority and is fixed for good.
    NoAuthorityExists,
    /// The extension is already present in the slot.
    ExtensionAlreadyInitialized,
    /// The extension is absent from the slot.
    ExtensionNotFound,
    /// The account does not belong to the given mint.
    MintMismatch,
    /// The declared decimals differ from the mint's.
    MintDecimalsMismatch,
    /// The mint's tokens cannot be moved.
    NonTransferable,
    /// The account is frozen.
    AccountFrozen,
    /// A plaintext balance or a counter left the range of 64 bits.
    Overflow,
    /// A deposit of more than 48 bits.
    MaximumDepositAmountExceeded,
    /// More pending credits than the account allows between two applications.
    MaximumPendingBalanceCreditCounterExceeded,
    /// The account was not approved for confidential transfers.
    ConfidentialTransferAccountNotApproved,
    /// The account does not accept confidential credits.
    ConfidentialTransferDepositsAndTransfersDisabled,
    /// The account does not accept non-confidential credits.
    NonConfidentialTransfersDisabled,
    /// A proof was made under another ElGamal key than the stored one.
    ConfidentialTransferElGamalPubkeyMismatch,
    /// The ciphertext computed differs from the one the proof attests.
    ConfidentialTransferBalanceMismatch,
    /// The proof's fee parameters differ from the mint's for this epoch.
    FeeParametersMismatch,
    /// The account still holds a balance and cannot be closed.
    ConfidentialTransferAccountHasBalance,
    /// The host did not supply an account that the instruction needs.
    NotEnoughAccountKeys,
    /// The destination asks for a memo and the previous instruction is none.
    NoMemo,
}

} // verus!
