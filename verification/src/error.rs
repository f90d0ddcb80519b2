use vstd::prelude::*;

verus! {

/// Typed failure reasons of the accounting core.
///
/// Every entry point that fails returns one of these and leaves all state it
/// was handed unchanged: funds never move on a failure path.
#[derive(Clone, Copy, Debug, PartialEq, Eq, Structural)]
pub enum ErrorCode {
    /// A rate lookup fell before the first schedule entry, or the schedule is empty.
    NoEmissionsScheduled,
    /// A replacement schedule's timestamps are not strictly increasing.
    InvalidSchedule,
    /// The transfer would push the window's accumulated total past its threshold.
    CircuitBreakerTriggered,
    /// Reward issuance was attempted before this epoch's snapshot was committed.
    SnapshotNotReady,
    /// Treasury pricing math left the 128-bit intermediate range.
    CurveOverflow,
    /// The supplied authority does not match the stored one.
    Unauthorized,
    /// Timestamp arithmetic left the representable range.
    TimestampOverflow,
    /// A counter or threshold computation left its integer range.
    ArithmeticOverflow,
    /// A symbol string is longer than the layout allows.
    InvalidStringLength,
    /// A canopy byte buffer does not hold a whole number of nodes.
    CanopyLengthMismatch,
    /// A canopy account is already claimed by an earlier batch.
    CanopyInUse,
}

} // verus!
