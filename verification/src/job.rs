//! Bitcoin jobs: block header templates handed down by an upstream protocol
//! client.
//!
//! A job is polymorphic over the protocol that produced it. Each supported
//! protocol contributes one concrete variant holding the common header
//! fields plus whatever protocol-specific data the submission path needs;
//! recovering the concrete variant from a shared job is an explicit,
//! fallible conversion so that mixing jobs across protocol clients surfaces
//! as a typed error instead of a silent misread.

use vstd::prelude::*;

use crate::error::HalError;

verus! {

/// Block header fields every job exposes, independent of protocol.
#[derive(Clone, Copy, Debug)]
pub struct JobHeader {
    /// Original version field that reflects the current network consensus
    pub version: u32,
    /// Bit-mask with general purpose bits which can be freely manipulated
    /// (specified by BIP320)
    pub version_mask: u32,
    /// Double SHA256 hash of the previous block header
    pub previous_hash: [u8; 32],
    /// Double SHA256 hash based on all of the transactions in the block
    pub merkle_root: [u8; 32],
    /// Current block timestamp as seconds since 1970-01-01T00:00 UTC
    pub time: u32,
    /// Maximal timestamp for current block as seconds since
    /// 1970-01-01T00:00 UTC
    pub max_time: u32,
    /// Current target in compact format (network difficulty)
    pub bits: u32,
}

impl JobHeader {
    /// A well-formed header never places the maximal rolling timestamp
    /// before the block timestamp itself.
    pub open spec fn wf(self) -> bool {
        self.time <= self.max_time
    }

    /// A header whose `max_time` defaults to `time`, for protocols that do
    /// not constrain time rolling.
    pub fn new(
        version: u32,
        version_mask: u32,
        previous_hash: [u8; 32],
        merkle_root: [u8; 32],
        time: u32,
        bits: u32,
    ) -> (r: Self)
        ensures
            r == (JobHeader {
                version,
                version_mask,
                previous_hash,
                merkle_root,
                time,
                max_time: time,
                bits,
            }),
            r.wf(),
    {
        Self { version, version_mask, previous_hash, merkle_root, time, max_time: time, bits }
    }
}

/// Job delivered by a stratum protocol client.
#[derive(Clone, Copy, Debug)]
pub struct StratumJob {
    /// Common block header fields
    pub header: JobHeader,
    /// Extranonce assigned to this connection, needed again at submission
    pub extranonce: u64,
}

/// Job assembled locally from a block template.
#[derive(Clone, Copy, Debug)]
pub struct TemplateJob {
    /// Common block header fields
    pub header: JobHeader,
    /// Height of the block being worked on
    pub height: u32,
}

/// A block header template from which new work is generated, tagged with
/// the upstream protocol that produced it.
#[derive(Clone, Copy, Debug)]
pub enum BitcoinJob {
    Stratum(StratumJob),
    Template(TemplateJob),
}

impl BitcoinJob {
    /// The common header fields of this job, whichever protocol produced it.
    pub open spec fn spec_header(self) -> JobHeader {
        match self {
            BitcoinJob::Stratum(j) => j.header,
            BitcoinJob::Template(j) => j.header,
        }
    }

    /// The common header fields of this job.
    pub fn header(&self) -> (h: &JobHeader)
        ensures
            *h == self.spec_header(),
    {
        match self {
            BitcoinJob::Stratum(j) => &j.header,
            BitcoinJob::Template(j) => &j.header,
        }
    }

    /// Original version field that reflects the current network consensus.
    pub fn version(&self) -> (r: u32)
        ensures
            r == self.spec_header().version,
    {
        self.header().version
    }

    /// Bit-mask with general purpose bits which can be freely manipulated
    /// (specified by BIP320).
    pub fn version_mask(&self) -> (r: u32)
        ensures
            r == self.spec_header().version_mask,
    {
        self.header().version_mask
    }

    /// Double SHA256 hash of the previous block header.
    pub fn previous_hash(&self) -> (r: &[u8; 32])
        ensures
            *r == self.spec_header().previous_hash,
    {
        &self.header().previous_hash
    }

    /// Double SHA256 hash based on all of the transactions in the block.
    pub fn merkle_root(&self) -> (r: &[u8; 32])
        ensures
            *r == self.spec_header().merkle_root,
    {
        &self.header().merkle_root
    }

    /// Current block timestamp as seconds since 1970-01-01T00:00 UTC.
    pub fn time(&self) -> (r: u32)
        ensures
            r == self.spec_header().time,
    {
        self.header().time
    }

    /// Maximal timestamp for current block as seconds since
    /// 1970-01-01T00:00 UTC; on a well-formed header it never lies before
    /// the block timestamp itself.
    pub fn max_time(&self) -> (r: u32)
        ensures
            r == self.spec_header().max_time,
            self.spec_header().wf() ==> r >= self.spec_header().time,
    {
        self.header().max_time
    }

    /// Current target in compact format (network difficulty).
    pub fn bits(&self) -> (r: u32)
        ensures
            r == self.spec_header().bits,
    {
        self.header().bits
    }

    /// Recovers the stratum job this job was built from; fails with
    /// `WrongJobKind` if it came from another protocol client.
    pub fn downcast_stratum(&self) -> (r: Result<&StratumJob, HalError>)
        ensures
            r is Ok <==> self is Stratum,
            r is Ok ==> *r->Ok_0 == self->Stratum_0,
            r is Err ==> r->Err_0 == HalError::WrongJobKind,
    {
        match self {
            BitcoinJob::Stratum(j) => Ok(j),
            _ => Err(HalError::WrongJobKind),
        }
    }

    /// Recovers the template job this job was built from; fails with
    /// `WrongJobKind` if it came from another protocol client.
    pub fn downcast_template(&self) -> (r: Result<&TemplateJob, HalError>)
        ensures
            r is Ok <==> self is Template,
            r is Ok ==> *r->Ok_0 == self->Template_0,
            r is Err ==> r->Err_0 == HalError::WrongJobKind,
    {
        match self {
            BitcoinJob::Template(j) => Ok(j),
            _ => Err(HalError::WrongJobKind),
        }
    }
}

} // verus!
