use vstd::prelude::*;

verus! {

/// Every way in which an instruction can be rejected. A rejected instruction
/// leaves the vault ledger exactly as it was.
#[derive(Debug, Clone, Copy, PartialEq, Eq, Structural)]
pub enum BridgeError {
    /// The discriminant byte names no known instruction.
    UnknownInstruction,
    /// The instruction data ends before a required field does.
    TruncatedInstruction,
    /// A field is present but its content is not acceptable (bad text).
    MalformedField,
    /// Fewer accounts were supplied than the instruction requires.
    MissingAccount,
    /// The actor account did not sign, or is not the configured authority.
    MissingSignature,
    /// The amount is zero.
    InvalidAmount,
    /// The vault holds less than the amount to be released.
    InsufficientVaultBalance,
    /// The source transaction has already been redeemed.
    ReplayedTransaction,
    /// The token transfer did not go through.
    TransferFailed,
    /// Locking the amount would carry the vault balance past `u64::MAX`.
    BalanceOverflow,
}

} // verus!
