//! The contract every concrete hardware driver must satisfy to be started
//! by the controller.
//!
//! A driver is started with a handle to the work-distribution queue it
//! pulls work from, the shared statistics it must keep updated, and a
//! shutdown sender through which it reports fatal hardware conditions and
//! its own termination. Starting is non-blocking: the call returns once the
//! driver's independent execution context is running.

use vstd::prelude::*;

use std::sync::Arc;

use crate::shutdown::ShutdownSender;
use crate::stats::MiningStats;

verus! {

/// Statistics are shared between a chain's driving contexts and telemetry
/// consumers behind this mutex; every update is a bounded critical section.
#[verifier::external_type_specification]
#[verifier::external_body]
#[verifier::reject_recursive_types(T)]
pub struct ExFuturesMutex<T: ?Sized>(futures_locks::Mutex<T>);

/// The counters a statistics mutex was created around.
pub uninterp spec fn stats_mutex_contents(m: futures_locks::Mutex<MiningStats>) -> MiningStats;

/// Relies on `futures_locks::Mutex::new`: wraps the given counters into an
/// unlocked mutex, which then guards exactly that value.
#[verifier::external_body]
fn new_stats_mutex(stats: MiningStats) -> (m: futures_locks::Mutex<MiningStats>)
    ensures
        stats_mutex_contents(m) == stats,
{
    futures_locks::Mutex::new(stats)
}

/// A fresh statistics aggregate with every counter at zero, ready to be
/// shared between the contexts driving one hashchain and any telemetry
/// consumer.
pub fn new_shared_stats() -> (r: Arc<futures_locks::Mutex<MiningStats>>)
    ensures
        stats_mutex_contents(*r).work_generated == 0,
        stats_mutex_contents(*r).stale_solutions == 0,
        stats_mutex_contents(*r).duplicate_solutions == 0,
        stats_mutex_contents(*r).mismatched_solution_nonces == 0,
        stats_mutex_contents(*r).unique_solutions == 0,
{
    Arc::new(new_stats_mutex(MiningStats::new()))
}

/// Any hardware mining controller should implement at least these methods.
pub trait HardwareCtl {
    /// Handle to the work-distribution queue the driver pulls work from and
    /// pushes solutions back through; opaque to this core.
    type WorkHub;

    /// Starts hardware controller connected to the work hub, while storing
    /// stats in `mining_stats`.
    fn start_hw(
        &self,
        workhub: Self::WorkHub,
        mining_stats: Arc<futures_locks::Mutex<MiningStats>>,
        shutdown: ShutdownSender,
    );
}

} // verus!
