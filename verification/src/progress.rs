//! Progress accounting shared by uploads and downloads.
//!
//! A transfer reports its progress as a whole percentage,
//! `floor(bytes_so_far * 100 / total_size)`, together with a coarse status.
//! The percentage is only defined for a positive total size; callers must
//! guard the zero-size case.

use vstd::arithmetic::div_mod::{lemma_div_by_multiple, lemma_div_is_ordered};
use vstd::arithmetic::mul::lemma_mul_inequality;
use vstd::prelude::*;

verus! {

/// Coarse phase of a transfer, as delivered to the progress sink.
#[derive(Clone, Copy, Debug, PartialEq, Eq, Structural)]
pub enum TransferStatus {
    Hashing,
    Uploading,
    Downloading,
    Finished,
    Error,
}

/// One event for the progress sink: a percentage, a status, and a
/// human-readable reason (empty unless the status is `Error`).
#[derive(Debug)]
pub struct ProgressEvent {
    pub percent: u64,
    pub status: TransferStatus,
    pub message: String,
}

/// The percentage a transfer reports after moving `done` of `total` bytes.
pub open spec fn percent_spec(done: u64, total: u64) -> int
    recommends
        total > 0,
{
    done * 100 / (total as int)
}

/// `floor(done * 100 / total)`, the progress percentage of a transfer.
pub fn percent_of(done: u64, total: u64) -> (p: u64)
    requires
        total > 0,
        done <= total,
    ensures
        p == percent_spec(done, total),
        p <= 100,
{
    proof {
        lemma_mul_inequality(done as int, total as int, 100);
        lemma_div_is_ordered(done * 100, total * 100, total as int);
        lemma_div_by_multiple(100, total as int);
    }
    let wide: u128 = (done as u128) * 100 / (total as u128);
    wide as u64
}

/// Progress percentages grow with the byte counter: emitted percentages for
/// one transfer are non-decreasing while the total stays fixed.
pub proof fn lemma_percent_monotonic(done_before: u64, done_after: u64, total: u64)
    requires
        total > 0,
        done_before <= done_after,
    ensures
        percent_spec(done_before, total) <= percent_spec(done_after, total),
{
    lemma_mul_inequality(done_before as int, done_after as int, 100);
    lemma_div_is_ordered(done_before * 100, done_after * 100, total as int);
}

/// A transfer that has moved every byte reports exactly 100.
pub proof fn lemma_percent_complete(total: u64)
    requires
        total > 0,
    ensures
        percent_spec(total, total) == 100,
{
    lemma_div_by_multiple(100, total as int);
}

} // verus!
