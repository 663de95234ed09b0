//! The error taxonomy of the protocol core.
//!
//! Every handler validates all of its preconditions before it mutates
//! anything and returns the first violated condition as one of these
//! variants; the surrounding substrate discards all state changes on any
//! failure, so a returned error always means "state unchanged".

use vstd::prelude::*;

verus! {

/// The reasons an operation of the protocol core can fail.
#[derive(Clone, Copy, Debug, PartialEq, Eq, Structural)]
pub enum LidoError {
    /// An account list did not match the operation's declared roles:
    /// wrong length, a missing signer or writable flag, or a substituted
    /// account in a position whose address is fixed.
    AuthorizationMismatch,
    /// A registry insert would grow past the capacity declared at
    /// initialization.
    CapacityExceeded,
    /// The exchange rate was not computed in the current epoch, so an
    /// operation that needs a fresh rate cannot run yet.
    StaleRate,
    /// An idempotency guard tripped: the operation already ran in this
    /// epoch and running it again would double its effect.
    AlreadyUpdated,
    /// A checked addition or multiplication exceeded the 64-bit range.
    ArithmeticOverflow,
    /// A checked subtraction went below zero.
    ArithmeticUnderflow,
    /// A conversion between native and derivative units was attempted
    /// while the exchange rate's denominator for that direction is zero.
    InvalidUnitConversion,
    /// A validator cannot be removed while its stake-account seed range
    /// is non-empty or its observed balance is not fully reconciled.
    ValidatorHasStakeAccounts,
    /// A validator cannot be removed while it still has an unclaimed
    /// fee credit.
    ValidatorHasUnclaimedCredit,
    /// Two stake accounts cannot be merged: the seed range holds fewer
    /// than two accounts, or their activation epochs differ.
    MergeIneligible,
    /// A registry insert would duplicate a member that is already there.
    DuplicateEntry,
    /// The named registry member does not exist.
    NotFound,
    /// A reward cannot be distributed because the sum of the reward
    /// distribution parts is zero.
    InvalidRewardDistribution,
    /// An instruction payload could not be decoded.
    InvalidInstructionData,
}

} // verus!
