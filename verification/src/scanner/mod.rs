pub mod index;
pub mod stats;
pub mod persistent_index;
pub mod dir_walk;
pub mod ntfs_mft;

pub use index::ScanIndex;
pub use stats::SubtreeStats;

use vstd::prelude::*;
use crate::text::{has_substring, str_contains};

verus! {

/// Why a scan failed.
#[derive(Debug)]
pub enum ScanError {
    /// An I/O error, with its text.
    Io(String),
    /// Raw MFT enumeration needs administrative privileges.
    ElevationRequired,
    /// The volume or path does not exist.
    NotFound(String),
    /// Any other failure.
    Other(String),
}

/// Whether a scan reads the MFT: when asked to, or for a drive root such as
/// "C:" or "C:\\" (at most three bytes, with a colon).
pub fn use_mft_scanner(target: &str, force_mft: bool) -> (r: bool)
    ensures
        r == ((target.len() <= 3 && has_substring(target@, ":"@)) || force_mft),
{
    (target.len() <= 3 && str_contains(target, ":")) || force_mft
}

} // verus!
