use vstd::prelude::*;
use crate::classifier::rules::{found, has_named_child, verdict_view};
use crate::model::category::ArtifactCategory;
use crate::model::file_record::FileRecord;
use crate::scanner::index::{IndexView, ScanIndex};
use crate::text::{eq_ascii_folded, eq_ignore_ascii_case};

verus! {

/// Recognizes `target` next to a `Cargo.toml`.
pub struct RustRule;

/// The verdict of the Rust rule.
pub open spec fn rust_verdict(v: IndexView, r: FileRecord) -> Option<(ArtifactCategory, Seq<char>)> {
    if r.is_dir && eq_ascii_folded(r.name@, "target"@) && has_named_child(v, r.parent_id, "Cargo.toml"@) {
        Some((ArtifactCategory::RustTarget, "Rust build output next to Cargo.toml (reproducible via cargo build)"@))
    } else {
        None
    }
}

/// A directory named `target` (any ASCII case) whose parent's name table
/// holds `Cargo.toml` is Rust build output; without the manifest, or for a
/// file, there is no verdict.
pub proof fn law_target_beside_cargo_toml(v: IndexView, r: FileRecord)
    ensures
        r.is_dir && eq_ascii_folded(r.name@, "target"@) && has_named_child(v, r.parent_id, "Cargo.toml"@)
            ==> rust_verdict(v, r) == Some(
            (ArtifactCategory::RustTarget, "Rust build output next to Cargo.toml (reproducible via cargo build)"@),
        ),
        !has_named_child(v, r.parent_id, "Cargo.toml"@) ==> rust_verdict(v, r) is None,
        !r.is_dir ==> rust_verdict(v, r) is None,
{
}

impl RustRule {
    pub fn name(&self) -> (r: &'static str)
        ensures
            r@ == "Rust Build Output"@,
    {
        "Rust Build Output"
    }

    /// A directory named `target` (any ASCII case) whose parent has a
    /// `Cargo.toml`.
    pub fn evaluate(&self, index: &ScanIndex, record: &FileRecord) -> (r: Option<(ArtifactCategory, String)>)
        ensures
            verdict_view(r) == rust_verdict(index@, *record),
    {
        if !record.is_dir {
            return None;
        }
        if eq_ignore_ascii_case(record.name.as_str(), "target") {
            if index.has_child_with_name(record.parent_id, "Cargo.toml") {
                return found(
                    ArtifactCategory::RustTarget,
                    "Rust build output next to Cargo.toml (reproducible via cargo build)",
                );
            }
        }
        None
    }
}

} // verus!
