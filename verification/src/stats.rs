//! Hardware statistics for a single hashchain.
//!
//! A `MiningStats` value is created once per chain and shared between the
//! chain's driving contexts and any telemetry consumer behind a mutex; every
//! mutation is a single-counter increment performed inside that critical
//! section, and reporting reads a whole-struct snapshot under the same lock
//! so no torn view across counters can be observed.

use vstd::prelude::*;

verus! {

/// Holds all hardware-related statistics for a hashchain.
pub struct MiningStats {
    /// Number of work items generated for the hardware
    pub work_generated: usize,
    /// Number of stale solutions received from the hardware
    pub stale_solutions: u64,
    /// Unable to feed the hardware fast enough results in duplicate solutions
    /// as multiple chips may process the same mining work
    pub duplicate_solutions: u64,
    /// Nonces that didn't match with previously received solutions; after
    /// filtering hardware errors this should stay at 0, anything else points
    /// at a hardware problem
    pub mismatched_solution_nonces: u64,
    /// Counter of unique solutions
    pub unique_solutions: u64,
}

/// Names one counter family of `MiningStats`; callers pick the counter that
/// matches how they classified a work item or solution.
#[derive(Clone, Copy, Debug, PartialEq, Eq, Structural)]
pub enum StatCounter {
    /// Once per work item created for the hardware
    WorkGenerated,
    /// Once per solution whose job was superseded before it arrived
    StaleSolutions,
    /// Once per (nonce, midstate, job) triple already reported before
    DuplicateSolutions,
    /// Once per nonce that validates against no midstate of the claimed work
    MismatchedSolutionNonces,
    /// Exactly once per solution that passes every check above
    UniqueSolutions,
}

impl MiningStats {
    /// The value of one counter family, as a mathematical integer.
    pub open spec fn spec_counter(self, c: StatCounter) -> int {
        match c {
            StatCounter::WorkGenerated => self.work_generated as int,
            StatCounter::StaleSolutions => self.stale_solutions as int,
            StatCounter::DuplicateSolutions => self.duplicate_solutions as int,
            StatCounter::MismatchedSolutionNonces => self.mismatched_solution_nonces as int,
            StatCounter::UniqueSolutions => self.unique_solutions as int,
        }
    }

    /// The machine limit of one counter family.
    pub open spec fn spec_counter_limit(c: StatCounter) -> int {
        match c {
            StatCounter::WorkGenerated => usize::MAX as int,
            _ => u64::MAX as int,
        }
    }

    /// `self` with counter `c` one higher and every other counter unchanged.
    pub open spec fn spec_incremented(self, c: StatCounter) -> MiningStats {
        match c {
            StatCounter::WorkGenerated => MiningStats {
                work_generated: (self.work_generated + 1) as usize,
                ..self
            },
            StatCounter::StaleSolutions => MiningStats {
                stale_solutions: (self.stale_solutions + 1) as u64,
                ..self
            },
            StatCounter::DuplicateSolutions => MiningStats {
                duplicate_solutions: (self.duplicate_solutions + 1) as u64,
                ..self
            },
            StatCounter::MismatchedSolutionNonces => MiningStats {
                mismatched_solution_nonces: (self.mismatched_solution_nonces + 1) as u64,
                ..self
            },
            StatCounter::UniqueSolutions => MiningStats {
                unique_solutions: (self.unique_solutions + 1) as u64,
                ..self
            },
        }
    }

    /// Fresh statistics with every counter at zero.
    pub fn new() -> (r: Self)
        ensures
            r.work_generated == 0,
            r.stale_solutions == 0,
            r.duplicate_solutions == 0,
            r.mismatched_solution_nonces == 0,
            r.unique_solutions == 0,
    {
        Self {
            work_generated: 0,
            stale_solutions: 0,
            duplicate_solutions: 0,
            mismatched_solution_nonces: 0,
            unique_solutions: 0,
        }
    }

    /// Adds one to counter `c`, leaving every other counter as it was.
    pub fn increment(&mut self, c: StatCounter)
        requires
            old(self).spec_counter(c) < MiningStats::spec_counter_limit(c),
        ensures
            *final(self) == old(self).spec_incremented(c),
            final(self).spec_counter(c) == old(self).spec_counter(c) + 1,
    {
        match c {
            StatCounter::WorkGenerated => {
                self.work_generated = self.work_generated + 1;
            },
            StatCounter::StaleSolutions => {
                self.stale_solutions = self.stale_solutions + 1;
            },
            StatCounter::DuplicateSolutions => {
                self.duplicate_solutions = self.duplicate_solutions + 1;
            },
            StatCounter::MismatchedSolutionNonces => {
                self.mismatched_solution_nonces = self.mismatched_solution_nonces + 1;
            },
            StatCounter::UniqueSolutions => {
                self.unique_solutions = self.unique_solutions + 1;
            },
        }
    }

    /// A point-in-time copy of every counter; read under one critical
    /// section by reporting consumers so the view is never torn.
    pub fn snapshot(&self) -> (r: MiningStats)
        ensures
            r == *self,
    {
        MiningStats {
            work_generated: self.work_generated,
            stale_solutions: self.stale_solutions,
            duplicate_solutions: self.duplicate_solutions,
            mismatched_solution_nonces: self.mismatched_solution_nonces,
            unique_solutions: self.unique_solutions,
        }
    }
}

} // verus!
