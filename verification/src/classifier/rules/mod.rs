pub mod app_cache;
pub mod browser_cache;
pub mod consumer;
pub mod dotnet_java;
pub mod downloads;
pub mod ide;
pub mod node;
pub mod python;
pub mod rust;
pub mod unity;
pub mod windows_update;

use vstd::prelude::*;
use vstd::string::StringExecFns;
use crate::model::category::ArtifactCategory;
use crate::scanner::index::IndexView;
use crate::paths::plain_name;
use crate::text::lowercase;

verus! {

/// A rule's verdict with the reason taken as text.
pub open spec fn verdict_view(o: Option<(ArtifactCategory, String)>) -> Option<(ArtifactCategory, Seq<char>)> {
    match o {
        Some((c, s)) => Some((c, s@)),
        None => None,
    }
}

/// A match with a fixed reason.
pub fn found(c: ArtifactCategory, reason: &str) -> (r: Option<(ArtifactCategory, String)>)
    ensures
        verdict_view(r) == Some((c, reason@)),
{
    Some((c, String::from_str(reason)))
}

/// `parent`'s name table holds `name`, compared after lower-casing.
pub open spec fn has_named_child(v: IndexView, parent: u64, name: Seq<char>) -> bool {
    v.names_of(parent).contains_key(lowercase(name))
}

/// Some child of `parent` has the extension `ext` (ASCII case-insensitively,
/// after lower-casing `ext`).
pub open spec fn has_ext_child(v: IndexView, parent: u64, ext: Seq<char>) -> bool {
    exists|i: int|
        0 <= i < v.children_of(parent).len() && crate::scanner::index::child_has_extension(
            v,
            v.children_of(parent)[i],
            lowercase(ext),
        )
}

/// Some child of `parent` with a plain file name has the extension `ext`
/// (ASCII case-insensitively, after lower-casing `ext`).
pub open spec fn has_plain_ext_child(v: IndexView, parent: u64, ext: Seq<char>) -> bool {
    exists|i: int|
        0 <= i < v.children_of(parent).len() && crate::scanner::index::child_has_extension(
            v,
            v.children_of(parent)[i],
            lowercase(ext),
        ) && plain_name(v.records[v.children_of(parent)[i]].name@)
}

/// Every record registered under `parent` has a plain file name.
pub open spec fn plain_children(v: IndexView, parent: u64) -> bool {
    forall|i: int|
        0 <= i < v.children_of(parent).len() && #[trigger] v.records.contains_key(v.children_of(parent)[i])
            ==> plain_name(v.records[v.children_of(parent)[i]].name@)
}

/// Every record name in the index is a plain file name.
pub open spec fn plain_names(v: IndexView) -> bool {
    forall|k: u64| #[trigger] v.records.contains_key(k) ==> plain_name(v.records[k].name@)
}

} // verus!
