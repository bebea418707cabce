use vstd::prelude::*;
use crate::classifier::rules::{plain_children, verdict_view};
use crate::classifier::rules::app_cache::{AppCacheRule, app_cache_verdict};
use crate::classifier::rules::browser_cache::{BrowserCacheRule, browser_cache_verdict};
use crate::classifier::rules::consumer::{GameCacheRule, TempFilesRule, game_cache_verdict, temp_files_verdict};
use crate::classifier::rules::dotnet_java::{DotnetJavaRule, dotnet_java_verdict};
use crate::classifier::rules::downloads::{DownloadsRule, downloads_verdict, stale_days_valid};
use crate::classifier::rules::ide::{IdeRule, ide_verdict};
use crate::classifier::rules::node::{NodeRule, node_verdict};
use crate::classifier::rules::python::{PythonRule, python_verdict};
use crate::classifier::rules::rust::{RustRule, rust_verdict};
use crate::classifier::rules::unity::{UnityRule, unity_verdict};
use crate::classifier::rules::windows_update::{WindowsUpdateRule, windows_update_verdict};
use crate::model::category::ArtifactCategory;
use crate::model::file_record::{FileRecord, Timestamp, timestamp_in_range};
use crate::paths::plain_name;
use crate::scanner::index::{IndexView, ScanIndex, path_resolvable};
use crate::scanner::stats::{SubtreeStats, stats_of, subtree_finite, subtree_tally, tally_fits};
use crate::classifier::rules::ide::ide_possible;
use crate::classifier::rules::dotnet_java::dotnet_java_possible;
use crate::model::candidate::{GitRepoStatus, ReclaimCandidate, hardlink_caveat, size_text};
use std::collections::HashSet;

verus! {

/// One classification rule of a pipeline.
pub enum PipelineRule {
    Node(NodeRule),
    Rust(RustRule),
    Python(PythonRule),
    DotnetJava(DotnetJavaRule),
    Ide(IdeRule),
    Unity(UnityRule),
    Downloads(DownloadsRule),
    WindowsUpdate(WindowsUpdateRule),
    AppCache(AppCacheRule),
    BrowserCache(BrowserCacheRule),
    GameCache(GameCacheRule),
    TempFiles(TempFilesRule),
}

/// The name of a rule.
pub open spec fn rule_name(rule: PipelineRule) -> Seq<char> {
    match rule {
        PipelineRule::Node(_) => "Node.js Dependencies"@,
        PipelineRule::Rust(_) => "Rust Build Output"@,
        PipelineRule::Python(_) => "Python Artifacts"@,
        PipelineRule::DotnetJava(_) => ".NET, Java, and Maven Caches"@,
        PipelineRule::Ide(_) => "IDE Workspace Caches"@,
        PipelineRule::Unity(_) => "Unity Build Artifacts"@,
        PipelineRule::Downloads(_) => "Stale Downloaded Installers"@,
        PipelineRule::WindowsUpdate(_) => "Windows Update Leftovers"@,
        PipelineRule::AppCache(_) => "App Junk & Offline Cache"@,
        PipelineRule::BrowserCache(_) => "Web Browser Cache"@,
        PipelineRule::GameCache(_) => "Game Launcher Cache"@,
        PipelineRule::TempFiles(_) => "Temporary Files & Crash Dumps"@,
    }
}

/// The verdict of a rule on a record at time `now`.
pub open spec fn rule_verdict(rule: PipelineRule, v: IndexView, r: FileRecord, now: Timestamp) -> Option<(ArtifactCategory, Seq<char>)> {
    match rule {
        PipelineRule::Node(_) => node_verdict(v, r),
        PipelineRule::Rust(_) => rust_verdict(v, r),
        PipelineRule::Python(_) => python_verdict(v, r),
        PipelineRule::DotnetJava(_) => dotnet_java_verdict(v, r),
        PipelineRule::Ide(_) => ide_verdict(v, r),
        PipelineRule::Unity(_) => unity_verdict(v, r),
        PipelineRule::Downloads(d) => downloads_verdict(d, v, r, now),
        PipelineRule::WindowsUpdate(_) => windows_update_verdict(v, r),
        PipelineRule::AppCache(_) => app_cache_verdict(v, r),
        PipelineRule::BrowserCache(_) => browser_cache_verdict(v, r),
        PipelineRule::GameCache(_) => game_cache_verdict(v, r),
        PipelineRule::TempFiles(_) => temp_files_verdict(v, r),
    }
}

/// The rule can be evaluated without panicking.
pub open spec fn rule_evaluable(rule: PipelineRule) -> bool {
    match rule {
        PipelineRule::Downloads(d) => stale_days_valid(d.stale_days),
        _ => true,
    }
}

/// What a rule can match on a directory without looking at file extensions
/// (an over-approximation of its verdict on directories).
pub open spec fn rule_possible(rule: PipelineRule, v: IndexView, r: FileRecord, now: Timestamp) -> bool {
    match rule {
        PipelineRule::Ide(_) => ide_possible(r),
        PipelineRule::DotnetJava(_) => dotnet_java_possible(r),
        PipelineRule::Downloads(_) => false,
        _ => rule_verdict(rule, v, r, now) is Some,
    }
}

impl PipelineRule {
    /// A copy of the rule.
    pub fn copy(&self) -> (r: Self)
        ensures
            r == *self,
    {
        match self {
            PipelineRule::Node(_) => PipelineRule::Node(NodeRule),
            PipelineRule::Rust(_) => PipelineRule::Rust(RustRule),
            PipelineRule::Python(_) => PipelineRule::Python(PythonRule),
            PipelineRule::DotnetJava(_) => PipelineRule::DotnetJava(DotnetJavaRule),
            PipelineRule::Ide(_) => PipelineRule::Ide(IdeRule),
            PipelineRule::Unity(_) => PipelineRule::Unity(UnityRule),
            PipelineRule::Downloads(d) => PipelineRule::Downloads(DownloadsRule { stale_days: d.stale_days }),
            PipelineRule::WindowsUpdate(_) => PipelineRule::WindowsUpdate(WindowsUpdateRule),
            PipelineRule::AppCache(_) => PipelineRule::AppCache(AppCacheRule),
            PipelineRule::BrowserCache(_) => PipelineRule::BrowserCache(BrowserCacheRule),
            PipelineRule::GameCache(_) => PipelineRule::GameCache(GameCacheRule),
            PipelineRule::TempFiles(_) => PipelineRule::TempFiles(TempFilesRule),
        }
    }

    pub fn name(&self) -> (r: &'static str)
        ensures
            r@ == rule_name(*self),
    {
        match self {
            PipelineRule::Node(x) => x.name(),
            PipelineRule::Rust(x) => x.name(),
            PipelineRule::Python(x) => x.name(),
            PipelineRule::DotnetJava(x) => x.name(),
            PipelineRule::Ide(x) => x.name(),
            PipelineRule::Unity(x) => x.name(),
            PipelineRule::Downloads(x) => x.name(),
            PipelineRule::WindowsUpdate(x) => x.name(),
            PipelineRule::AppCache(x) => x.name(),
            PipelineRule::BrowserCache(x) => x.name(),
            PipelineRule::GameCache(x) => x.name(),
            PipelineRule::TempFiles(x) => x.name(),
        }
    }

    /// Evaluates the rule at time `now`; exact when the record's name and the
    /// names of the records beside it (under its parent) are plain file names.
    pub fn evaluate_at(&self, index: &ScanIndex, record: &FileRecord, now: Timestamp) -> (r: Option<(ArtifactCategory, String)>)
        requires
            rule_evaluable(*self),
            timestamp_in_range(now),
            record.modified_at matches Some(m) ==> timestamp_in_range(m),
        ensures
            plain_children(index@, record.parent_id) && plain_name(record.name@) ==> verdict_view(r) == rule_verdict(
                *self,
                index@,
                *record,
                now,
            ),
            r is Some && record.is_dir ==> rule_possible(*self, index@, *record, now),
    {
        match self {
            PipelineRule::Node(x) => x.evaluate(index, record),
            PipelineRule::Rust(x) => x.evaluate(index, record),
            PipelineRule::Python(x) => x.evaluate(index, record),
            PipelineRule::DotnetJava(x) => x.evaluate(index, record),
            PipelineRule::Ide(x) => x.evaluate(index, record),
            PipelineRule::Unity(x) => x.evaluate(index, record),
            PipelineRule::Downloads(x) => x.evaluate_at(index, record, now),
            PipelineRule::WindowsUpdate(x) => x.evaluate(index, record),
            PipelineRule::AppCache(x) => x.evaluate(index, record),
            PipelineRule::BrowserCache(x) => x.evaluate(index, record),
            PipelineRule::GameCache(x) => x.evaluate(index, record),
            PipelineRule::TempFiles(x) => x.evaluate(index, record),
        }
    }
}

} // verus!
