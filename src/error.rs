use vstd::prelude::*;

verus! {

/// Why a vault operation failed. Every failure leaves the ledgers untouched.
#[derive(Debug, Clone, Copy, PartialEq, Eq, Structural)]
pub enum VaultError {
    /// The payment was empty, of zero amount, of several denominations or of
    /// a denomination other than the vault's asset.
    InvalidDeposit,
    /// The deposit would mint no shares.
    ZeroMintResult,
    /// No shares are outstanding, so there is nothing to redeem against.
    ZeroSupply,
    /// The burn would pay out no assets.
    ZeroReturnResult,
    /// The holder asked to burn zero shares or more shares than it holds.
    InsufficientShareBalance,
    /// A result does not fit in 128 bits.
    ArithmeticOverflow,
    /// A subtraction would go below zero.
    ArithmeticUnderflow,
    /// The pool's asset total could not be read.
    ExternalReadFailure,
    /// The payout could not be issued.
    ExternalPayoutFailure,
}

} // verus!
