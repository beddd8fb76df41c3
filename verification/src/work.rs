//! Hardware-ready work items.
//!
//! A `MiningWork` bundles a shared job with one or more precomputed SHA256
//! midstates (one per header version being tried) and a starting timestamp.
//! It is immutable after construction and cheap to share: cloning duplicates
//! the midstate list and the job handle, never the job itself.

use vstd::prelude::*;

use std::sync::Arc;

use crate::job::BitcoinJob;

verus! {

/// Partial SHA256 state after the first 64-byte chunk of the block header,
/// paired with the header version that produced it.
#[derive(Clone, Copy, Debug)]
pub struct Midstate {
    /// Version field used for calculating the midstate
    pub version: u32,
    /// Internal state of SHA256 after processing the first chunk (32 bytes)
    pub state: [u8; 32],
}

/// The order in which the bytes of a 32-bit word are laid out.
#[derive(Clone, Copy, Debug, PartialEq, Eq, Structural)]
pub enum WordOrder {
    /// Least-significant byte first
    Little,
    /// Most-significant byte first
    Big,
}

/// The 32-bit word formed by four bytes taken in the given order.
pub open spec fn spec_u32_from_bytes(order: WordOrder, b0: u8, b1: u8, b2: u8, b3: u8) -> int {
    match order {
        WordOrder::Little => b0 + 256 * b1 + 65536 * b2 + 16777216 * b3,
        WordOrder::Big => b3 + 256 * b2 + 65536 * b1 + 16777216 * b0,
    }
}

/// Assembles four bytes into a 32-bit word in the given order.
pub fn u32_from_bytes(order: WordOrder, b0: u8, b1: u8, b2: u8, b3: u8) -> (r: u32)
    ensures
        r == spec_u32_from_bytes(order, b0, b1, b2, b3),
{
    match order {
        WordOrder::Little => (b0 as u32) + 256 * (b1 as u32) + 65536 * (b2 as u32) + 16777216
            * (b3 as u32),
        WordOrder::Big => (b3 as u32) + 256 * (b2 as u32) + 65536 * (b1 as u32) + 16777216 * (
        b0 as u32),
    }
}

/// Describes actual mining work for submission to a hashing hardware.
/// Starting with the merkle root's least-significant word the data goes to
/// chunk2 of SHA256.
pub struct MiningWork {
    /// Bitcoin job shared with initial network protocol and work solution
    pub job: Arc<BitcoinJob>,
    /// Multiple midstates can be generated for each work
    pub midstates: Vec<Midstate>,
    /// Start value for nTime, hardware may roll nTime further.
    pub ntime: u32,
}

impl MiningWork {
    /// A well-formed work item carries at least one midstate; each entry
    /// corresponds to a header version the hardware may present back in a
    /// solution by index.
    pub open spec fn wf(self) -> bool {
        self.midstates.len() >= 1
    }

    /// Bundles a shared job with its midstates and a starting timestamp.
    pub fn new(job: Arc<BitcoinJob>, midstates: Vec<Midstate>, ntime: u32) -> (r: Self)
        requires
            midstates.len() >= 1,
        ensures
            r.wf(),
            r.job == job,
            r.midstates == midstates,
            r.ntime == ntime,
    {
        Self { job, midstates, ntime }
    }

    /// The merkle root's least-significant 32-bit word, read in the given
    /// order, as the target hashing chunk-2 layout requires it.
    pub open spec fn spec_merkel_root_lsw(self, order: WordOrder) -> int {
        let root = (*self.job).spec_header().merkle_root;
        spec_u32_from_bytes(order, root[28], root[29], root[30], root[31])
    }

    /// Extract least-significant word of merkle root that goes to chunk2
    /// of SHA256.
    pub fn merkel_root_lsw(&self, order: WordOrder) -> (r: u32)
        ensures
            r == self.spec_merkel_root_lsw(order),
    {
        let root = self.job.merkle_root();
        u32_from_bytes(order, root[28], root[29], root[30], root[31])
    }

    /// Shortcut for getting current target (nBits).
    pub fn bits(&self) -> (r: u32)
        ensures
            r == (*self.job).spec_header().bits,
    {
        self.job.bits()
    }
}

/// Relies on the `Clone` impl of `std::sync::Arc`: a clone is another
/// handle on the same shared allocation, so it dereferences to the very
/// same job.
#[verifier::external_body]
fn clone_job_handle(job: &Arc<BitcoinJob>) -> (r: Arc<BitcoinJob>)
    ensures
        r == *job,
{
    Arc::clone(job)
}

impl Clone for MiningWork {
    /// Duplicates the midstate list and the job handle, not the job itself.
    fn clone(&self) -> (r: Self)
        ensures
            r.job == self.job,
            r.midstates@ == self.midstates@,
            r.ntime == self.ntime,
    {
        let midstates = self.midstates.clone();
        proof {
            assert(midstates@ =~= self.midstates@);
        }
        MiningWork { job: clone_job_handle(&self.job), midstates, ntime: self.ntime }
    }
}

} // verus!
