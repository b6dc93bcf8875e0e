//! The flag decision: a file is flagged when its on-disk size exceeds the
//! size threshold, or when its ratio of actual to estimated size exceeds the
//! ratio threshold; either condition alone suffices. A file that meets
//! neither is a normal, successful outcome of its own, not a failure.

use vstd::prelude::*;
use vstd::string::StringExecFns;

use crate::estimate::{estimate_eighths, estimate_size};
use crate::header::PngHeader;
use crate::ratio::{frac_exceeds, ratio_gt, Ratio, RatioBound};

verus! {

/// The caller-supplied thresholds: a byte count and a ratio, one of which a
/// file must exceed to be flagged.
#[derive(Clone, Copy, Debug, PartialEq, Eq, Structural)]
pub struct Config {
    /// A file larger than this many bytes is flagged outright.
    pub min_size: u64,
    /// A file whose actual-to-estimated size ratio exceeds this is flagged.
    pub min_ratio: RatioBound,
}

impl Config {
    /// A configuration is usable when its ratio threshold is a genuine
    /// fraction.
    pub open spec fn wf(&self) -> bool {
        self.min_ratio.wf()
    }
}

/// What the report keeps of one flagged file.
#[derive(Clone, Debug, PartialEq, Eq)]
pub struct FileRecord {
    /// The file's path.
    pub path: String,
    /// The file's size in whole KiB: the byte size divided by 1024,
    /// truncating.
    pub size_kib: u64,
    /// The ratio of actual size to estimated size.
    pub ratio: Ratio,
}

/// The outcome of measuring one file against the thresholds.
#[derive(Clone, Debug, PartialEq, Eq)]
pub enum Classification {
    /// The file exceeded a threshold; the record carries what the report
    /// prints.
    Flagged(FileRecord),
    /// The file met neither threshold.
    NotFlagged,
}

/// Whether a file of `size` bytes whose header yields an estimate of
/// `eighths` eighths of a byte is flagged under `cfg`: its size exceeds the
/// size threshold, or its ratio `8 * size / eighths` of actual to estimated
/// bytes exceeds the ratio threshold.
pub open spec fn is_flagged(size: u64, eighths: int, cfg: Config) -> bool {
    size > cfg.min_size || frac_exceeds(
        8 * size,
        eighths,
        cfg.min_ratio.num as int,
        cfg.min_ratio.den as int,
    )
}

/// Measures one file against the thresholds: `size` is its on-disk byte
/// size, `info` its parsed header. Returns the record to report when the
/// file is flagged, and the distinct not-flagged outcome otherwise.
pub fn check_file(path: &str, size: u64, info: &PngHeader, cfg: &Config) -> (r: Classification)
    requires
        cfg.wf(),
    ensures
        is_flagged(size, estimate_eighths(*info), *cfg) ==> (r matches Classification::Flagged(rec)
            && rec.path@ == path@ && rec.size_kib == size as int / 1024 && rec.ratio == (Ratio {
            num: (8 * size) as u128,
            den: estimate_eighths(*info) as u128,
        })),
        !is_flagged(size, estimate_eighths(*info), *cfg) ==> r is NotFlagged,
{
    let est = estimate_size(info);
    let ratio = Ratio { num: (size as u128) * 8, den: est.eighths };
    if size > cfg.min_size || ratio_gt(&ratio, &cfg.min_ratio) {
        Classification::Flagged(
            FileRecord { path: String::from_str(path), size_kib: size / 1024, ratio },
        )
    } else {
        Classification::NotFlagged
    }
}

/// One scanned file: its path, and once measured, its byte size and its
/// ratio of actual to estimated size. Until the one-time measurement the
/// ratio is absent, never a sentinel number that a threshold could be
/// compared against by mistake.
#[derive(Clone, Debug)]
pub struct PNG {
    /// The file's path.
    pub path: String,
    /// The file's on-disk size in bytes; zero until measured.
    pub size: u64,
    /// Actual over estimated size; absent until measured.
    pub ratio: Option<Ratio>,
}

impl PNG {
    /// A freshly seen file: size zero, ratio not yet computed.
    pub fn new(path: &str) -> (r: PNG)
        ensures
            r.path@ == path@,
            r.size == 0,
            r.ratio is None,
    {
        PNG { path: String::from_str(path), size: 0, ratio: None }
    }

    /// The one-time measurement: records the file's byte size and its ratio
    /// of actual to estimated size, from the size and header that the caller
    /// read off the file system.
    pub fn size_ratio(&mut self, size: u64, info: &PngHeader)
        requires
            old(self).ratio is None,
        ensures
            final(self).path == old(self).path,
            final(self).size == size,
            final(self).ratio matches Some(rt) && rt == (Ratio {
                num: (8 * size) as u128,
                den: estimate_eighths(*info) as u128,
            }),
    {
        let est = estimate_size(info);
        self.size = size;
        self.ratio = Some(Ratio { num: (size as u128) * 8, den: est.eighths });
    }
}

} // verus!
