use vstd::prelude::*;
use vstd::string::StringExecFns;
use crate::model::file_record::FILE_ATTRIBUTE_REPARSE_POINT;

verus! {

/// Tells symbolic links and junctions apart from ordinary paths.
pub struct ReparseChecker;

/// The verdict on a path from what its metadata says (`None` when the metadata
/// could not be read): a symbolic link, or on Windows a path with the
/// reparse-point attribute, is refused.
pub open spec fn reparse_verdict_of(meta: Option<(bool, Option<u32>)>) -> Option<Seq<char>> {
    match meta {
        None => None,
        Some((is_symlink, attrs)) => if is_symlink {
            Some("Target is a symbolic link or junction point (skipping target traversal)"@)
        } else if attrs matches Some(a) && a & FILE_ATTRIBUTE_REPARSE_POINT != 0 {
            Some("Target is an NTFS reparse point or volume junction"@)
        } else {
            None
        },
    }
}

impl ReparseChecker {
    /// The verdict from a path's metadata: whether it is a symbolic link, and its
    /// Windows attribute bits where the platform has them.
    pub fn verdict(meta: Option<(bool, Option<u32>)>) -> (r: Option<String>)
        ensures
            match r {
                Some(s) => reparse_verdict_of(meta) == Some(s@),
                None => reparse_verdict_of(meta) is None,
            },
    {
        match meta {
            None => None,
            Some((is_symlink, attrs)) => {
                if is_symlink {
                    return Some(
                        String::from_str("Target is a symbolic link or junction point (skipping target traversal)"),
                    );
                }
                match attrs {
                    Some(a) => {
                        if a & FILE_ATTRIBUTE_REPARSE_POINT != 0 {
                            return Some(String::from_str("Target is an NTFS reparse point or volume junction"));
                        }
                    },
                    None => {},
                }
                None
            },
        }
    }
}

} // verus!
