//! The error taxonomy of the market maker.

use vstd::prelude::*;

verus! {

/// Every way an operation can fail. Validation errors come from the launch
/// constraints and the swap guards, authorization errors from the
/// administrator checks, state-machine errors from the completion latch, and
/// arithmetic errors from a reserve update that would leave the 64-bit range.
#[derive(Clone, Copy, Debug, PartialEq, Eq, Structural)]
pub enum PumpfunError {
    ValueTooSmall,
    ValueTooLarge,
    ValueInvalid,
    IncorrectConfigAccount,
    IncorrectAuthority,
    OverflowOrUnderflowOccurred,
    InvalidAmount,
    IncorrectTeamWallet,
    CurveNotCompleted,
    CurveAlreadyCompleted,
    MintAuthorityEnabled,
    FreezeAuthorityEnabled,
    ReturnAmountTooSmall,
    TransactionExpired,
    DecimalOverflow,
}

} // verus!
