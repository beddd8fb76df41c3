//! Correlation of raw hardware solutions with the work that produced them.

use std::sync::Arc;
use std::time::SystemTime;

use bosminer_hal::error::HalError;
use bosminer_hal::job::{BitcoinJob, JobHeader, StratumJob, TemplateJob};
use bosminer_hal::solution::{MiningWorkSolution, UniqueMiningWorkSolution};
use bosminer_hal::work::{u32_from_bytes, MiningWork, Midstate, WordOrder};

fn fixture_root() -> [u8; 32] {
    let mut root = [0u8; 32];
    let mut i = 0usize;
    while i < 32 {
        root[i] = i as u8;
        i += 1;
    }
    root
}

fn stratum_job(time: u32) -> BitcoinJob {
    BitcoinJob::Stratum(StratumJob {
        header: JobHeader::new(0x20000000, 0x1fffe000, [0xabu8; 32], fixture_root(), time, 0x1d00ffff),
        extranonce: 0xfeed,
    })
}

fn work_with_midstates(job: BitcoinJob, versions: &[u32], ntime: u32) -> MiningWork {
    let mut midstates = Vec::new();
    for &v in versions {
        midstates.push(Midstate { version: v, state: [0x11u8; 32] });
    }
    MiningWork::new(Arc::new(job), midstates, ntime)
}

fn solution_with(ntime: Option<u32>, midstate_idx: usize) -> MiningWorkSolution {
    MiningWorkSolution { nonce: 0xdeadbeef, ntime, midstate_idx, solution_id: 7 }
}

fn unique(work: MiningWork, solution: MiningWorkSolution) -> UniqueMiningWorkSolution {
    UniqueMiningWorkSolution::new(SystemTime::now(), work, solution)
}

#[test]
fn version_resolves_each_midstate() {
    let versions = [0x20000000u32, 0x20002000, 0x3fffe000];
    for i in 0..versions.len() {
        let work = work_with_midstates(stratum_job(1000), &versions, 1000);
        let u = unique(work, solution_with(None, i));
        assert_eq!(u.version(), Ok(versions[i]));
    }
}

#[test]
fn version_out_of_range_fails() {
    let versions = [0x20000000u32, 0x20002000];
    for idx in [2usize, 3, usize::MAX] {
        let work = work_with_midstates(stratum_job(1000), &versions, 1000);
        let u = unique(work, solution_with(None, idx));
        assert_eq!(u.version(), Err(HalError::MidstateIndexOutOfRange));
    }
}

#[test]
fn time_prefers_rolled_ntime() {
    let work = work_with_midstates(stratum_job(1000), &[0x20000000], 1500);
    let u = unique(work, solution_with(Some(1600), 0));
    assert_eq!(u.time(), 1600);
}

#[test]
fn time_falls_back_to_work_ntime() {
    let work = work_with_midstates(stratum_job(1000), &[0x20000000], 1500);
    let u = unique(work, solution_with(None, 0));
    assert_eq!(u.time(), 1500);
}

#[test]
fn time_offset_zero_and_max_succeed() {
    let work = work_with_midstates(stratum_job(1000), &[0x20000000], 1000);
    let u = unique(work, solution_with(None, 0));
    assert_eq!(u.time_offset(), Ok(0u16));

    let work = work_with_midstates(stratum_job(1000), &[0x20000000], 1000 + 65535);
    let u = unique(work, solution_with(None, 0));
    assert_eq!(u.time_offset(), Ok(65535u16));
}

#[test]
fn time_offset_underflow_fails() {
    let work = work_with_midstates(stratum_job(1000), &[0x20000000], 999);
    let u = unique(work, solution_with(None, 0));
    assert_eq!(u.time_offset(), Err(HalError::TimeOffsetUnderflow));
}

#[test]
fn time_offset_overflow_fails() {
    let work = work_with_midstates(stratum_job(1000), &[0x20000000], 1000 + 65536);
    let u = unique(work, solution_with(None, 0));
    assert_eq!(u.time_offset(), Err(HalError::TimeOffsetOverflow));
}

#[test]
fn time_offset_uses_rolled_ntime() {
    let work = work_with_midstates(stratum_job(1000), &[0x20000000], 1000);
    let u = unique(work, solution_with(Some(1234), 0));
    assert_eq!(u.time_offset(), Ok(234u16));
}

#[test]
fn nonce_and_bits_pass_through() {
    let work = work_with_midstates(stratum_job(1000), &[0x20000000], 1000);
    assert_eq!(work.bits(), 0x1d00ffff);
    let u = unique(work, solution_with(None, 0));
    assert_eq!(u.nonce(), 0xdeadbeef);
}

#[test]
fn downcast_to_true_kind_returns_equal_fields() {
    let work = work_with_midstates(stratum_job(1000), &[0x20000000], 1000);
    let u = unique(work, solution_with(None, 0));
    let sj = u.job().downcast_stratum().expect("stratum job must downcast");
    assert_eq!(sj.extranonce, 0xfeed);
    assert_eq!(sj.header.version, 0x20000000);
    assert_eq!(sj.header.version_mask, 0x1fffe000);
    assert_eq!(sj.header.previous_hash, [0xabu8; 32]);
    assert_eq!(sj.header.merkle_root, fixture_root());
    assert_eq!(sj.header.time, 1000);
    assert_eq!(sj.header.max_time, 1000);
    assert_eq!(sj.header.bits, 0x1d00ffff);
}

#[test]
fn downcast_to_unrelated_kind_fails() {
    let work = work_with_midstates(stratum_job(1000), &[0x20000000], 1000);
    let u = unique(work, solution_with(None, 0));
    assert!(u.job().downcast_template().is_err());
    assert_eq!(u.job().downcast_template().err(), Some(HalError::WrongJobKind));

    let template = BitcoinJob::Template(TemplateJob {
        header: JobHeader::new(2, 0, [0u8; 32], fixture_root(), 500, 0x1d00ffff),
        height: 123456,
    });
    let work = work_with_midstates(template, &[2], 500);
    let u = unique(work, solution_with(None, 0));
    let tj = u.job().downcast_template().expect("template job must downcast");
    assert_eq!(tj.height, 123456);
    assert_eq!(u.job().downcast_stratum().err(), Some(HalError::WrongJobKind));
}

#[test]
fn job_accessors_expose_header_fields() {
    let job = stratum_job(777);
    assert_eq!(job.version(), 0x20000000);
    assert_eq!(job.version_mask(), 0x1fffe000);
    assert_eq!(*job.previous_hash(), [0xabu8; 32]);
    assert_eq!(*job.merkle_root(), fixture_root());
    assert_eq!(job.time(), 777);
    assert_eq!(job.max_time(), 777);
    assert!(job.max_time() >= job.time());
    assert_eq!(job.bits(), 0x1d00ffff);
}

#[test]
fn u32_from_bytes_exact_values() {
    assert_eq!(u32_from_bytes(WordOrder::Little, 0x78, 0x56, 0x34, 0x12), 0x12345678);
    assert_eq!(u32_from_bytes(WordOrder::Big, 0x12, 0x34, 0x56, 0x78), 0x12345678);
    assert_eq!(u32_from_bytes(WordOrder::Little, 0xff, 0xff, 0xff, 0xff), u32::MAX);
    assert_eq!(u32_from_bytes(WordOrder::Big, 0, 0, 0, 0), 0);
}

#[test]
fn merkel_root_lsw_known_fixture_both_orders() {
    // last four bytes of the fixture root are 28, 29, 30, 31
    let work = work_with_midstates(stratum_job(1000), &[0x20000000], 1000);
    assert_eq!(work.merkel_root_lsw(WordOrder::Little), 0x1f1e1d1c);
    assert_eq!(work.merkel_root_lsw(WordOrder::Big), 0x1c1d1e1f);
}

#[test]
fn clone_shares_the_job_handle() {
    let work = work_with_midstates(stratum_job(1000), &[1, 2], 1000);
    let cloned = work.clone();
    assert!(Arc::ptr_eq(&work.job, &cloned.job));
    assert_eq!(cloned.ntime, 1000);
    assert_eq!(cloned.midstates.len(), 2);
    assert_eq!(cloned.midstates[0].version, 1);
    let u = unique(work, solution_with(None, 1));
    let u2 = u.clone();
    assert_eq!(u2.nonce(), u.nonce());
    assert_eq!(u2.version(), Ok(2));
    assert_eq!(u2.timestamp, u.timestamp);
    assert!(Arc::ptr_eq(&u.work.job, &u2.work.job));
}

#[test]
fn error_descriptions() {
    assert_eq!(HalError::MidstateIndexOutOfRange.description(), "midstate index out of range");
    assert_eq!(HalError::TimeOffsetUnderflow.description(), "time offset underflow");
    assert_eq!(HalError::TimeOffsetOverflow.description(), "time offset overflow");
    assert_eq!(HalError::WrongJobKind.description(), "cannot downcast to original job");
}
