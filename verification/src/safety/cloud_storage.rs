use vstd::prelude::*;
use vstd::string::StringExecFns;
use crate::model::file_record::{FILE_ATTRIBUTE_REPARSE_POINT, attrs_cloud};
use crate::text::{has_substring, lowercase, str_contains, to_lowercase};

verus! {

/// Recognizes online-only cloud placeholders and cloud-synced links.
pub struct CloudStorageChecker;

/// The path names a common cloud storage folder.
pub open spec fn in_cloud_folder(path: Seq<char>) -> bool {
    let p = lowercase(path);
    has_substring(p, "onedrive"@) || has_substring(p, "icloud"@) || has_substring(p, "dropbox"@)
        || has_substring(p, "google drive"@)
}

/// The Windows verdict from the attribute bits (`None` when the metadata could
/// not be read): recall-on-access placeholders are refused, and reparse points
/// inside cloud folders.
pub open spec fn cloud_verdict_windows_of(path: Seq<char>, attrs: Option<u32>) -> Option<Seq<char>> {
    match attrs {
        None => None,
        Some(a) => if attrs_cloud(a) {
            Some("File is an online-only cloud placeholder (recall on access)"@)
        } else if a & FILE_ATTRIBUTE_REPARSE_POINT != 0 && in_cloud_folder(path) {
            Some("Path is managed as a cloud storage sync reparse point"@)
        } else {
            None
        },
    }
}

/// The verdict elsewhere (`None` when the metadata could not be read): a symbolic
/// link inside a cloud folder is refused.
pub open spec fn cloud_verdict_other_of(path: Seq<char>, is_symlink: Option<bool>) -> Option<Seq<char>> {
    if is_symlink == Some(true) && in_cloud_folder(path) {
        Some("Path is managed as a cloud storage sync link"@)
    } else {
        None
    }
}

/// The verdict as text.
pub open spec fn text_of(o: Option<String>) -> Option<Seq<char>> {
    match o {
        Some(s) => Some(s@),
        None => None,
    }
}

impl CloudStorageChecker {
    /// Whether the path names a common cloud storage folder.
    pub fn in_cloud_storage(path: &str) -> (r: bool)
        ensures
            r == in_cloud_folder(path@),
    {
        let p = to_lowercase(path);
        str_contains(p.as_str(), "onedrive") || str_contains(p.as_str(), "icloud") || str_contains(
            p.as_str(),
            "dropbox",
        ) || str_contains(p.as_str(), "google drive")
    }

    /// The Windows verdict on a path given its attribute bits.
    pub fn verdict_windows(path: &str, attrs: Option<u32>) -> (r: Option<String>)
        ensures
            text_of(r) == cloud_verdict_windows_of(path@, attrs),
    {
        let in_cloud = Self::in_cloud_storage(path);
        match attrs {
            None => None,
            Some(a) => {
                let is_reparse = (a & FILE_ATTRIBUTE_REPARSE_POINT) != 0;
                let is_recall = (a & (crate::model::file_record::FILE_ATTRIBUTE_RECALL_ON_DATA_ACCESS
                    | crate::model::file_record::FILE_ATTRIBUTE_RECALL_ON_OPEN
                    | crate::model::file_record::FILE_ATTRIBUTE_OFFLINE)) != 0;
                if is_recall {
                    Some(String::from_str("File is an online-only cloud placeholder (recall on access)"))
                } else if is_reparse && in_cloud {
                    Some(String::from_str("Path is managed as a cloud storage sync reparse point"))
                } else {
                    None
                }
            },
        }
    }

    /// The verdict elsewhere, given whether the path is a symbolic link.
    pub fn verdict_other(path: &str, is_symlink: Option<bool>) -> (r: Option<String>)
        ensures
            text_of(r) == cloud_verdict_other_of(path@, is_symlink),
    {
        let in_cloud = Self::in_cloud_storage(path);
        if is_symlink == Some(true) && in_cloud {
            Some(String::from_str("Path is managed as a cloud storage sync link"))
        } else {
            None
        }
    }
}

} // verus!
