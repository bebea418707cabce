use vstd::prelude::*;
use crate::classifier::rules::{found, verdict_view};
use crate::model::category::ArtifactCategory;
use crate::model::file_record::FileRecord;
use crate::scanner::index::{IndexView, ScanIndex};
use crate::text::{has_suffix, lowercase, str_ends_with, str_eq, to_lowercase};

verus! {

/// Recognizes `Windows.old` and the Windows Update download cache.
pub struct WindowsUpdateRule;

/// The verdict of the Windows Update rule.
pub open spec fn windows_update_verdict(v: IndexView, r: FileRecord) -> Option<(ArtifactCategory, Seq<char>)> {
    let path = lowercase(r.path@);
    if !r.is_dir {
        None
    } else if lowercase(r.name@) == "windows.old"@ {
        Some((ArtifactCategory::WindowsUpdate, "Backup archive from prior Windows version (Windows.old)"@))
    } else if has_suffix(path, "\\softwaredistribution\\download"@) || has_suffix(path, "/softwaredistribution/download"@) {
        Some((ArtifactCategory::WindowsUpdate, "Cached Windows Update downloaded installation packages"@))
    } else {
        None
    }
}

/// Every directory whose name lower-cases to `windows.old` is the backup of a
/// prior Windows installation; no file is a Windows Update leftover.
pub proof fn law_windows_old_is_recognized(v: IndexView, r: FileRecord)
    ensures
        r.is_dir && lowercase(r.name@) == "windows.old"@ ==> windows_update_verdict(v, r) == Some(
            (ArtifactCategory::WindowsUpdate, "Backup archive from prior Windows version (Windows.old)"@),
        ),
        !r.is_dir ==> windows_update_verdict(v, r) is None,
        r.is_dir && lowercase(r.name@) != "windows.old"@ && (has_suffix(
            lowercase(r.path@),
            "\\softwaredistribution\\download"@,
        ) || has_suffix(lowercase(r.path@), "/softwaredistribution/download"@)) ==> windows_update_verdict(v, r)
            == Some((ArtifactCategory::WindowsUpdate, "Cached Windows Update downloaded installation packages"@)),
        lowercase(r.name@) != "windows.old"@ && !has_suffix(lowercase(r.path@), "\\softwaredistribution\\download"@)
            && !has_suffix(lowercase(r.path@), "/softwaredistribution/download"@) ==> windows_update_verdict(v, r) is None,
{
}

impl WindowsUpdateRule {
    pub fn name(&self) -> (r: &'static str)
        ensures
            r@ == "Windows Update Leftovers"@,
    {
        "Windows Update Leftovers"
    }

    /// A `windows.old` directory, or a directory whose path ends with
    /// `softwaredistribution/download` (either separator).
    pub fn evaluate(&self, _index: &ScanIndex, record: &FileRecord) -> (r: Option<(ArtifactCategory, String)>)
        ensures
            verdict_view(r) == windows_update_verdict(_index@, *record),
            record.is_dir && lowercase(record.name@) == "windows.old"@ ==> verdict_view(r) == Some(
                (ArtifactCategory::WindowsUpdate, "Backup archive from prior Windows version (Windows.old)"@),
            ),
    {
        proof {
            law_windows_old_is_recognized(_index@, *record);
        }
        if !record.is_dir {
            return None;
        }
        let name = to_lowercase(record.name.as_str());
        if str_eq(name.as_str(), "windows.old") {
            return found(
                ArtifactCategory::WindowsUpdate,
                "Backup archive from prior Windows version (Windows.old)",
            );
        }
        let path_str = to_lowercase(record.path.as_str());
        if str_ends_with(path_str.as_str(), "\\softwaredistribution\\download") || str_ends_with(
            path_str.as_str(),
            "/softwaredistribution/download",
        ) {
            return found(
                ArtifactCategory::WindowsUpdate,
                "Cached Windows Update downloaded installation packages",
            );
        }
        None
    }
}

} // verus!
