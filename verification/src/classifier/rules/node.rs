use vstd::prelude::*;
use crate::classifier::rules::{found, has_named_child, verdict_view};
use crate::model::category::ArtifactCategory;
use crate::model::file_record::FileRecord;
use crate::scanner::index::{IndexView, ScanIndex};
use crate::text::{eq_ascii_folded, eq_ignore_ascii_case};

verus! {

/// Recognizes `node_modules` next to a `package.json`.
pub struct NodeRule;

/// The verdict of the Node.js rule.
pub open spec fn node_verdict(v: IndexView, r: FileRecord) -> Option<(ArtifactCategory, Seq<char>)> {
    if r.is_dir && eq_ascii_folded(r.name@, "node_modules"@) && has_named_child(v, r.parent_id, "package.json"@) {
        Some((ArtifactCategory::NodeModules, "Node.js dependencies next to package.json (re-installable via npm/yarn/pnpm)"@))
    } else {
        None
    }
}

/// A directory named `node_modules` (any ASCII case) whose parent's name
/// table holds `package.json` is Node.js dependencies; without the manifest,
/// or for a file, there is no verdict.
pub proof fn law_node_modules_beside_package_json(v: IndexView, r: FileRecord)
    ensures
        r.is_dir && eq_ascii_folded(r.name@, "node_modules"@) && has_named_child(v, r.parent_id, "package.json"@)
            ==> node_verdict(v, r) == Some(
            (ArtifactCategory::NodeModules, "Node.js dependencies next to package.json (re-installable via npm/yarn/pnpm)"@),
        ),
        !has_named_child(v, r.parent_id, "package.json"@) ==> node_verdict(v, r) is None,
        !r.is_dir ==> node_verdict(v, r) is None,
{
}

impl NodeRule {
    pub fn name(&self) -> (r: &'static str)
        ensures
            r@ == "Node.js Dependencies"@,
    {
        "Node.js Dependencies"
    }

    /// A directory named `node_modules` (any ASCII case) whose parent has a
    /// `package.json`.
    pub fn evaluate(&self, index: &ScanIndex, record: &FileRecord) -> (r: Option<(ArtifactCategory, String)>)
        ensures
            verdict_view(r) == node_verdict(index@, *record),
    {
        if !record.is_dir {
            return None;
        }
        if eq_ignore_ascii_case(record.name.as_str(), "node_modules") {
            if index.has_child_with_name(record.parent_id, "package.json") {
                return found(
                    ArtifactCategory::NodeModules,
                    "Node.js dependencies next to package.json (re-installable via npm/yarn/pnpm)",
                );
            }
        }
        None
    }
}

} // verus!
