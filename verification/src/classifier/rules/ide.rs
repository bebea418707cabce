use vstd::prelude::*;
use crate::classifier::rules::{found, has_ext_child, has_plain_ext_child, plain_children, verdict_view};
use crate::model::category::ArtifactCategory;
use crate::model::file_record::FileRecord;
use crate::scanner::index::{IndexView, ScanIndex};
use crate::text::{lowercase, str_eq, to_lowercase};

verus! {

/// Recognizes Visual Studio `.vs` next to a solution, and JetBrains `.idea`.
pub struct IdeRule;

/// What the IDE rule can match without looking at file extensions.
pub open spec fn ide_possible(r: FileRecord) -> bool {
    r.is_dir && (lowercase(r.name@) == ".vs"@ || lowercase(r.name@) == ".idea"@)
}

/// The verdict of the IDE rule.
pub open spec fn ide_verdict(v: IndexView, r: FileRecord) -> Option<(ArtifactCategory, Seq<char>)> {
    let name = lowercase(r.name@);
    if !r.is_dir {
        None
    } else if name == ".vs"@ && has_ext_child(v, r.parent_id, "sln"@) {
        Some((ArtifactCategory::VisualStudio, "Visual Studio solution index and IntelliSense cache (.vs)"@))
    } else if name == ".idea"@ {
        Some((ArtifactCategory::JetBrains, "JetBrains IDE project settings and index cache (.idea)"@))
    } else {
        None
    }
}

/// Every `.idea` directory is JetBrains settings; a `.vs` directory beside a
/// `.sln` file is the Visual Studio cache and, without one, gets no verdict; a
/// file never gets one.
pub proof fn law_ide_caches(v: IndexView, r: FileRecord)
    ensures
        r.is_dir && lowercase(r.name@) == ".idea"@ ==> ide_verdict(v, r) == Some(
            (ArtifactCategory::JetBrains, "JetBrains IDE project settings and index cache (.idea)"@),
        ),
        r.is_dir && lowercase(r.name@) == ".vs"@ && has_ext_child(v, r.parent_id, "sln"@) ==> ide_verdict(v, r) == Some(
            (ArtifactCategory::VisualStudio, "Visual Studio solution index and IntelliSense cache (.vs)"@),
        ),
        lowercase(r.name@) == ".vs"@ && !has_ext_child(v, r.parent_id, "sln"@) ==> ide_verdict(v, r) is None,
        !r.is_dir ==> ide_verdict(v, r) is None,
{
    reveal_strlit(".idea");
    assert(".idea"@.len() == 5);
    reveal_strlit(".vs");
    assert(".vs"@.len() == 3);
}

impl IdeRule {
    pub fn name(&self) -> (r: &'static str)
        ensures
            r@ == "IDE Workspace Caches"@,
    {
        "IDE Workspace Caches"
    }

    /// A `.vs` directory whose parent has a `.sln` file, or an `.idea` directory.
    /// The solution-file test reads the extensions of the parent's children, so
    /// for a `.vs` directory the verdict is stated when their names are plain
    /// file names.
    pub fn evaluate(&self, index: &ScanIndex, record: &FileRecord) -> (r: Option<(ArtifactCategory, String)>)
        ensures
            lowercase(record.name@) != ".vs"@ || plain_children(index@, record.parent_id) ==> verdict_view(r)
                == ide_verdict(index@, *record),
            r is Some ==> ide_possible(*record),
            record.is_dir && lowercase(record.name@) == ".vs"@ && has_plain_ext_child(index@, record.parent_id, "sln"@)
                ==> verdict_view(r) == ide_verdict(index@, *record),
            verdict_view(r) == ide_verdict(index@, *record) || (record.is_dir && lowercase(record.name@) == ".vs"@
                && (r is None || verdict_view(r) == Some((ArtifactCategory::VisualStudio, "Visual Studio solution index and IntelliSense cache (.vs)"@)))),
    {
        if !record.is_dir {
            return None;
        }
        let name = to_lowercase(record.name.as_str());
        if str_eq(name.as_str(), ".vs") {
            let parent_id = record.parent_id;
            if index.has_child_with_extension(parent_id, "sln") {
                return found(
                    ArtifactCategory::VisualStudio,
                    "Visual Studio solution index and IntelliSense cache (.vs)",
                );
            }
        }
        if str_eq(name.as_str(), ".idea") {
            proof {
                reveal_strlit(".vs");
                reveal_strlit(".idea");
                assert(".vs"@.len() != ".idea"@.len());
                assert(lowercase(record.name@) != ".vs"@);
            }
            return found(
                ArtifactCategory::JetBrains,
                "JetBrains IDE project settings and index cache (.idea)",
            );
        }
        None
    }
}

} // verus!
