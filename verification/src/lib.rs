//! Flags PNG files whose on-disk size is out of proportion to the
//! uncompressed pixel-data size that their header implies.
//!
//! The library holds the pure core: estimating the uncompressed size of an
//! image from its header fields, and deciding from that estimate, the actual
//! file size and a pair of thresholds whether the file is worth flagging.
//! Reading headers from disk, walking directories and writing the report are
//! left to the surrounding program.

use vstd::prelude::*;

pub mod classify;
pub mod estimate;
pub mod header;
pub mod ratio;

verus! {

/// A failure while measuring a file, as distinct from a file that is
/// simply not flagged.
#[derive(Clone, Copy, Debug, PartialEq, Eq, Structural)]
pub enum Error {
    /// The file could not be opened, or its metadata could not be read.
    IOError,
    /// The file's header could not be parsed as a valid PNG header.
    FormatError,
}

} // verus!
