use vstd::prelude::*;

use crate::error::ParexError;

verus! {

/// Nanoseconds in one second.
pub const NANOS_PER_SEC: u128 = 1_000_000_000;

/// A span of wall-clock time, in whole nanoseconds.
#[derive(Clone, Copy, Debug, PartialEq, Eq, Structural)]
pub struct Elapsed {
    pub nanos: u128,
}

impl Elapsed {
    /// The span of `nanos` nanoseconds.
    pub fn from_nanos(nanos: u128) -> (r: Elapsed)
        ensures
            r.nanos == nanos,
    {
        Elapsed { nanos }
    }

    /// The whole span in nanoseconds.
    pub fn as_nanos(&self) -> (r: u128)
        ensures
            r == self.nanos,
    {
        self.nanos
    }

    /// The number of whole seconds in the span.
    pub fn as_secs(&self) -> (r: u128)
        ensures
            r == self.nanos / NANOS_PER_SEC,
    {
        self.nanos / NANOS_PER_SEC
    }
}

/// Entries per second for `total` entries seen in `nanos` nanoseconds:
/// `floor(total / seconds)`, zero for an empty span, and at most
/// `usize::MAX`.
pub open spec fn rate_of(total: int, nanos: int) -> int {
    if nanos <= 0 {
        0
    } else if (total * NANOS_PER_SEC) / nanos > usize::MAX {
        usize::MAX as int
    } else {
        (total * NANOS_PER_SEC) / nanos
    }
}

/// Performance statistics for a completed scan.
pub struct ScanStats {
    /// Number of files encountered, matched or not.
    pub files: usize,
    /// Number of directories encountered, matched or not.
    pub dirs: usize,
    /// Wall-clock time from the start of the search to its end.
    pub duration: Elapsed,
    /// `floor((files + dirs) / seconds)`, zero when the duration is zero.
    pub entries_per_sec: usize,
}

impl ScanStats {
    /// Statistics for `files` files and `dirs` directories seen in `duration`.
    pub fn compute(files: usize, dirs: usize, duration: Elapsed) -> (r: ScanStats)
        ensures
            r.files == files,
            r.dirs == dirs,
            r.duration == duration,
            r.entries_per_sec == rate_of(files + dirs, duration.nanos as int),
    {
        let total = files as u128 + dirs as u128;
        let eps: usize = if duration.nanos == 0 {
            0
        } else {
            assert(total * NANOS_PER_SEC <= u128::MAX) by (nonlinear_arith)
                requires
                    total <= 2 * (usize::MAX as nat),
                    usize::MAX <= u64::MAX,
            ;
            let per_sec = total * NANOS_PER_SEC / duration.nanos;
            if per_sec > usize::MAX as u128 {
                usize::MAX
            } else {
                per_sec as usize
            }
        };
        ScanStats { files, dirs, duration, entries_per_sec: eps }
    }
}

/// The output of a completed search.
pub struct Results {
    /// Number of matched entries, never more than the limit when one is set.
    pub matches: usize,
    /// Locators of the matched entries that were recorded, in the order they
    /// were found; empty unless path collection was enabled.
    pub paths: Vec<String>,
    /// Scan statistics.
    pub stats: ScanStats,
    /// Recoverable errors met during the search; empty unless error
    /// collection was enabled.
    pub errors: Vec<ParexError>,
}

} // verus!
