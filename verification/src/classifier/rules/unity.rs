use vstd::prelude::*;
use vstd::string::StringExecFns;
use crate::classifier::rules::{has_named_child, verdict_view};
use crate::model::category::ArtifactCategory;
use crate::model::file_record::FileRecord;
use crate::scanner::index::{IndexView, ScanIndex};
use crate::text::{lowercase, str_eq, to_lowercase};

verus! {

/// Recognizes Unity `Library/` and `Temp/` caches next to a Unity project's folders.
pub struct UnityRule;

/// The verdict of the Unity rule.
pub open spec fn unity_verdict(v: IndexView, r: FileRecord) -> Option<(ArtifactCategory, Seq<char>)> {
    let name = lowercase(r.name@);
    if r.is_dir && (name == "library"@ || name == "temp"@) && (has_named_child(v, r.parent_id, "assets"@)
        || has_named_child(v, r.parent_id, "projectsettings"@)) {
        Some((ArtifactCategory::Unity, "Unity editor cache '"@ + name + "/' directory (re-generated on project open)"@))
    } else {
        None
    }
}

/// In a Unity project (a folder whose name table holds `assets` or
/// `projectsettings`), its `library` and `temp` directories (any case that
/// lower-cases to them) are editor caches, named in the reason; nothing outside
/// such a project is.
pub proof fn law_unity_caches_are_recognized(v: IndexView, r: FileRecord)
    ensures
        r.is_dir && (lowercase(r.name@) == "temp"@ || lowercase(r.name@) == "library"@) && (has_named_child(
            v,
            r.parent_id,
            "assets"@,
        ) || has_named_child(v, r.parent_id, "projectsettings"@)) ==> unity_verdict(v, r) == Some(
            (
                ArtifactCategory::Unity,
                "Unity editor cache '"@ + lowercase(r.name@) + "/' directory (re-generated on project open)"@,
            ),
        ),
        !(has_named_child(v, r.parent_id, "assets"@) || has_named_child(v, r.parent_id, "projectsettings"@))
            ==> unity_verdict(v, r) is None,
        !r.is_dir ==> unity_verdict(v, r) is None,
{
}

impl UnityRule {
    pub fn name(&self) -> (r: &'static str)
        ensures
            r@ == "Unity Build Artifacts"@,
    {
        "Unity Build Artifacts"
    }

    /// `library` or `temp` directories whose parent has `assets` or `projectsettings`.
    pub fn evaluate(&self, index: &ScanIndex, record: &FileRecord) -> (r: Option<(ArtifactCategory, String)>)
        ensures
            verdict_view(r) == unity_verdict(index@, *record),
            record.is_dir && lowercase(record.name@) == "temp"@ && (has_named_child(index@, record.parent_id, "assets"@)
                || has_named_child(index@, record.parent_id, "projectsettings"@)) ==> verdict_view(r) == Some(
                (ArtifactCategory::Unity, "Unity editor cache 'temp/' directory (re-generated on project open)"@),
            ),
    {
        proof {
            law_unity_caches_are_recognized(index@, *record);
            reveal_strlit("temp");
            reveal_strlit("Unity editor cache '");
            reveal_strlit("/' directory (re-generated on project open)");
            reveal_strlit("Unity editor cache 'temp/' directory (re-generated on project open)");
        }
        if !record.is_dir {
            return None;
        }
        let name = to_lowercase(record.name.as_str());
        if str_eq(name.as_str(), "library") || str_eq(name.as_str(), "temp") {
            let parent_id = record.parent_id;
            if index.has_child_with_name(parent_id, "assets") || index.has_child_with_name(
                parent_id,
                "projectsettings",
            ) {
                let mut reason = String::from_str("Unity editor cache '");
                reason.append(name.as_str());
                reason.append("/' directory (re-generated on project open)");
                return Some((ArtifactCategory::Unity, reason));
            }
        }
        None
    }
}

} // verus!
