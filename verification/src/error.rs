//! Typed failures raised while correlating raw hardware results.

use vstd::prelude::*;

verus! {

/// A hardware or protocol inconsistency found while resolving a solution.
///
/// Every variant signals a condition that must be surfaced to the caller
/// rather than silently coerced: each points at a defective hardware chain
/// or at jobs being mixed across protocol clients.
#[derive(Clone, Copy, Debug, PartialEq, Eq, Structural)]
pub enum HalError {
    /// The hardware reported a midstate index that the originating work
    /// does not have.
    MidstateIndexOutOfRange,
    /// The solution's timestamp is older than the job's timestamp.
    TimeOffsetUnderflow,
    /// The solution's timestamp is more than 65535 seconds past the job's
    /// timestamp, so the offset does not fit the header's 16-bit field.
    TimeOffsetOverflow,
    /// A job was asked to yield a concrete protocol type other than the one
    /// it was built from.
    WrongJobKind,
}

impl HalError {
    /// A human-readable description of the failure.
    pub fn description(&self) -> (msg: &'static str)
        ensures
            *self is MidstateIndexOutOfRange ==> msg@ == "midstate index out of range"@,
            *self is TimeOffsetUnderflow ==> msg@ == "time offset underflow"@,
            *self is TimeOffsetOverflow ==> msg@ == "time offset overflow"@,
            *self is WrongJobKind ==> msg@ == "cannot downcast to original job"@,
    {
        match self {
            HalError::MidstateIndexOutOfRange => "midstate index out of range",
            HalError::TimeOffsetUnderflow => "time offset underflow",
            HalError::TimeOffsetOverflow => "time offset overflow",
            HalError::WrongJobKind => "cannot downcast to original job",
        }
    }
}

} // verus!
