//! Raw hardware solutions and their correlation with the originating work.
//!
//! The hardware reports a nonce together with the midstate index (and
//! possibly a rolled nTime) it used; correlation binds that raw result to
//! the exact work item it was computed against, so the proof-of-work header
//! can be reconstructed bit for bit. Index or time values that match no
//! valid state of the claimed work are surfaced as typed errors, never
//! silently coerced: they signal a hardware or protocol defect.

use vstd::prelude::*;

use crate::error::HalError;
use crate::job::BitcoinJob;
use crate::work::MiningWork;

verus! {

/// Wall-clock capture times are carried through opaquely; the core only
/// stores them as submission metadata and never interprets them.
#[verifier::external_type_specification]
#[verifier::external_body]
pub struct ExSystemTime(std::time::SystemTime);

/// Relies on std::time::SystemTime's derived `Clone`: the type is `Copy`,
/// so a clone is the very same instant.
pub assume_specification[ <std::time::SystemTime as Clone>::clone ](
    t: &std::time::SystemTime,
) -> (r: std::time::SystemTime)
    ensures
        r == *t,
;

/// Represents raw solution from the mining hardware.
#[derive(Clone, Copy, Debug)]
pub struct MiningWorkSolution {
    /// actual nonce
    pub nonce: u32,
    /// nTime of the solution in case the HW also rolls the nTime field
    pub ntime: Option<u32>,
    /// index of a midstate that corresponds to the found nonce
    pub midstate_idx: usize,
    /// Unique identifier for the solution
    pub solution_id: u32,
}

/// Container with mining work and a corresponding solution received at a
/// particular time. This data structure is used when posting work+solution
/// pairs for further submission upstream.
pub struct UniqueMiningWorkSolution {
    /// time stamp when it has been fetched from the solution FIFO
    pub timestamp: std::time::SystemTime,
    /// Original mining work associated with this solution
    pub work: MiningWork,
    /// solution of the PoW puzzle
    pub solution: MiningWorkSolution,
}

impl Clone for UniqueMiningWorkSolution {
    /// Copies the correlation record; the underlying job stays shared.
    fn clone(&self) -> (r: Self)
        ensures
            r.timestamp == self.timestamp,
            r.work.job == self.work.job,
            r.work.midstates@ == self.work.midstates@,
            r.work.ntime == self.work.ntime,
            r.solution == self.solution,
    {
        Self {
            timestamp: self.timestamp.clone(),
            work: self.work.clone(),
            solution: self.solution,
        }
    }
}

impl UniqueMiningWorkSolution {
    /// Correlates a raw hardware solution with the work it was computed
    /// against and the time it was fetched from the solution FIFO.
    pub fn new(
        timestamp: std::time::SystemTime,
        work: MiningWork,
        solution: MiningWorkSolution,
    ) -> (r: Self)
        ensures
            r.timestamp == timestamp,
            r.work == work,
            r.solution == solution,
    {
        Self { timestamp, work, solution }
    }

    /// The shared job this solution's work was generated from; protocol
    /// specific fields are recovered from it by an explicit downcast.
    pub fn job(&self) -> (j: &BitcoinJob)
        ensures
            *j == *self.work.job,
    {
        &self.work.job
    }

    /// The nonce the hardware found.
    pub fn nonce(&self) -> (r: u32)
        ensures
            r == self.solution.nonce,
    {
        self.solution.nonce
    }

    /// The block timestamp this solution was computed with: the hardware's
    /// own rolled nTime when present, else the work's starting nTime.
    pub open spec fn spec_time(self) -> u32 {
        match self.solution.ntime {
            Some(t) => t,
            None => self.work.ntime,
        }
    }

    /// The block timestamp this solution was computed with.
    pub fn time(&self) -> (r: u32)
        ensures
            r == self.spec_time(),
            self.solution.ntime is Some ==> r == self.solution.ntime->0,
            self.solution.ntime is None ==> r == self.work.ntime,
    {
        if let Some(time) = self.solution.ntime {
            time
        } else {
            self.work.ntime
        }
    }

    /// The solution's time as an offset from the job's timestamp, as the
    /// 16-bit header field requires it. Succeeds exactly when the offset
    /// lies in `0 ..= 65535`; a solution time older than the job time or an
    /// offset beyond 16 bits is a hardware or protocol inconsistency and is
    /// surfaced as a typed error, never truncated.
    pub fn time_offset(&self) -> (r: Result<u16, HalError>)
        ensures
            r is Ok <==> 0 <= self.spec_time() - (*self.work.job).spec_header().time <= 65535,
            r is Ok ==> r->Ok_0 == self.spec_time() - (*self.work.job).spec_header().time,
            self.spec_time() < (*self.work.job).spec_header().time ==> r == Err::<
                u16,
                HalError,
            >(HalError::TimeOffsetUnderflow),
            self.spec_time() - (*self.work.job).spec_header().time > 65535 ==> r == Err::<
                u16,
                HalError,
            >(HalError::TimeOffsetOverflow),
    {
        let job_time = self.work.job.time();
        let time = self.time();
        if time < job_time {
            Err(HalError::TimeOffsetUnderflow)
        } else {
            let offset = time - job_time;
            if offset > 65535 {
                Err(HalError::TimeOffsetOverflow)
            } else {
                Ok(offset as u16)
            }
        }
    }

    /// The header version this solution was computed with: the version of
    /// the midstate the hardware reports having used. An index that the
    /// originating work does not have is a hardware-reported-index bug and
    /// is surfaced as a typed error.
    pub fn version(&self) -> (r: Result<u32, HalError>)
        ensures
            r is Ok <==> self.solution.midstate_idx < self.work.midstates.len(),
            self.solution.midstate_idx < self.work.midstates.len() ==> r == Ok::<
                u32,
                HalError,
            >(self.work.midstates[self.solution.midstate_idx as int].version),
            self.solution.midstate_idx >= self.work.midstates.len() ==> r == Err::<
                u32,
                HalError,
            >(HalError::MidstateIndexOutOfRange),
    {
        let i = self.solution.midstate_idx;
        if i < self.work.midstates.len() {
            Ok(self.work.midstates[i].version)
        } else {
            Err(HalError::MidstateIndexOutOfRange)
        }
    }
}

} // verus!
