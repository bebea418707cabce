use sweepie_core::classifier::pipeline::PipelineRule;
use sweepie_core::classifier::rules::downloads::DownloadsRule;
use sweepie_core::classifier::rules::node::NodeRule;
use sweepie_core::classifier::rules::python::PythonRule;
use sweepie_core::classifier::rules::rust::RustRule;
use sweepie_core::classifier::ClassifierPipeline;
use sweepie_core::model::category::ArtifactCategory;
use sweepie_core::model::file_record::{FileRecord, Timestamp};
use sweepie_core::scanner::dir_walk::{DirWalkIngest, WalkEntry};
use sweepie_core::scanner::index::ScanIndex;

const ROOT: &str = "/tmp/sweepie-test-root";

/// Feeds a directory walk entry for `rel` (relative to the root) to the ingest.
fn walk(ingest: &mut DirWalkIngest, rel: &str, is_dir: bool, len: u64) {
    let path = format!("{ROOT}/{rel}");
    let (parent, name) = match path.rfind('/') {
        Some(i) => (path[..i].to_string(), path[i + 1..].to_string()),
        None => (ROOT.to_string(), path.clone()),
    };
    ingest.add_entry(WalkEntry {
        path,
        parent_path: Some(parent),
        file_name: name,
        is_dir,
        is_symlink: false,
        len: Some(len),
        modified_at: None,
        created_at: None,
        hard_link_count: Some(1),
    });
}

fn start() -> DirWalkIngest {
    DirWalkIngest::start(ROOT.to_string(), "sweepie-test-root".to_string(), None, None)
}

#[test]
fn test_classify_node_modules_and_rust_target() {
    let mut w = start();
    // Node.js project: package.json + node_modules
    walk(&mut w, "my-node-app", true, 0);
    walk(&mut w, "my-node-app/node_modules", true, 0);
    walk(&mut w, "my-node-app/node_modules/lodash", true, 0);
    walk(&mut w, "my-node-app/node_modules/lodash/index.js", false, 20);
    walk(&mut w, "my-node-app/package.json", false, 16);
    // Rust project: Cargo.toml + target
    walk(&mut w, "my-rust-app", true, 0);
    walk(&mut w, "my-rust-app/target", true, 0);
    walk(&mut w, "my-rust-app/target/debug", true, 0);
    walk(&mut w, "my-rust-app/target/debug/app.exe", false, 1024 * 100);
    walk(&mut w, "my-rust-app/Cargo.toml", false, 38);
    // Python project: pyproject.toml + .venv
    walk(&mut w, "my-py-app", true, 0);
    walk(&mut w, "my-py-app/.venv", true, 0);
    walk(&mut w, "my-py-app/.venv/bin", true, 0);
    walk(&mut w, "my-py-app/.venv/bin/python", false, 5);
    walk(&mut w, "my-py-app/pyproject.toml", false, 26);
    let index = w.finish(1);

    let pipeline = ClassifierPipeline::new(0); // 0 minimum size for tests
    let candidates = pipeline.classify(&index);

    let categories: Vec<ArtifactCategory> = candidates.iter().map(|c| c.category).collect();
    assert!(categories.contains(&ArtifactCategory::NodeModules));
    assert!(categories.contains(&ArtifactCategory::RustTarget));
    assert!(categories.contains(&ArtifactCategory::PythonVenv));

    let rust_candidate = candidates
        .iter()
        .find(|c| c.category == ArtifactCategory::RustTarget)
        .unwrap();
    assert!(rust_candidate.size_bytes >= 100 * 1024);
    assert_eq!(rust_candidate.path, format!("{ROOT}/my-rust-app/target"));
    assert_eq!(rust_candidate.file_count, 1);
}

#[test]
fn test_nested_candidate_ancestor_dedup() {
    let mut w = start();
    walk(&mut w, "app", true, 0);
    walk(&mut w, "app/node_modules", true, 0);
    walk(&mut w, "app/node_modules/child", true, 0);
    walk(&mut w, "app/node_modules/child/node_modules", true, 0);
    walk(&mut w, "app/node_modules/child/node_modules/file.js", false, 7);
    walk(&mut w, "app/node_modules/child/package.json", false, 17);
    walk(&mut w, "app/package.json", false, 15);
    let index = w.finish(1);

    let pipeline = ClassifierPipeline::new(0);
    let candidates = pipeline.classify(&index);

    // Only the outer node_modules should be returned as a candidate, not the nested one
    let nm_candidates: Vec<_> = candidates
        .iter()
        .filter(|c| c.category == ArtifactCategory::NodeModules)
        .collect();

    assert_eq!(
        nm_candidates.len(),
        1,
        "Nested node_modules must be suppressed by ancestor check"
    );
    assert_eq!(nm_candidates[0].path, format!("{ROOT}/app/node_modules"));
    assert_eq!(nm_candidates[0].size_bytes, 24);
    assert_eq!(nm_candidates[0].file_count, 2);
}

fn dir(id: u64, parent: u64, name: &str) -> FileRecord {
    FileRecord::new(id, parent, name.to_string(), String::new(), true, 0, None, None, 0x10)
}

fn file(id: u64, parent: u64, name: &str, size: u64) -> FileRecord {
    FileRecord::new(id, parent, name.to_string(), String::new(), false, size, None, None, 0)
}

/// root(1) / proj(2) / {package.json(3), node_modules(4) / {a.js(5), sub(6) / {package.json(7), node_modules(8) / b.js(9)}}}
fn nested_index() -> ScanIndex {
    let mut index = ScanIndex::new("/r".to_string());
    index.insert_record(dir(1, 1, ""));
    index.insert_record(dir(2, 1, "proj"));
    index.insert_record(file(3, 2, "package.json", 10));
    index.insert_record(dir(4, 2, "node_modules"));
    index.insert_record(file(5, 4, "a.js", 100));
    index.insert_record(dir(6, 4, "sub"));
    index.insert_record(file(7, 6, "package.json", 10));
    index.insert_record(dir(8, 6, "node_modules"));
    index.insert_record(file(9, 8, "b.js", 1000));
    index
}

#[test]
fn classify_ordered_suppresses_only_later_descendants() {
    let index = nested_index();
    let pipeline = ClassifierPipeline::new(0);
    let now = Timestamp { unix_nanos: 0 };
    // Outer first: the inner node_modules lies below an accepted candidate.
    let outer_first = pipeline.classify_ordered(&index, &vec![1, 2, 3, 4, 5, 6, 7, 8, 9], now);
    assert_eq!(outer_first.len(), 1);
    assert_eq!(outer_first[0].size_bytes, 1110);
    assert_eq!(outer_first[0].file_count, 3);
    assert_eq!(outer_first[0].path, "/r/proj/node_modules");
    // Inner first: both are found, in that order.
    let inner_first = pipeline.classify_ordered(&index, &vec![8, 4], now);
    assert_eq!(inner_first.len(), 2);
    assert_eq!(inner_first[0].path, "/r/proj/node_modules/sub/node_modules");
    assert_eq!(inner_first[0].size_bytes, 1000);
    assert_eq!(inner_first[1].size_bytes, 1110);
    // The depth-ordered classification keeps only the outer one.
    let all = pipeline.classify(&index);
    assert_eq!(all.len(), 1);
    assert_eq!(all[0].category, ArtifactCategory::NodeModules);
}

#[test]
fn minimum_size_filters_candidates() {
    let index = nested_index();
    let mut pipeline = ClassifierPipeline::new(0);
    pipeline.set_min_size(2000);
    let now = Timestamp { unix_nanos: 0 };
    let found = pipeline.classify_ordered(&index, &vec![4, 8], now);
    assert!(found.is_empty());
    pipeline.set_min_size(1000);
    // The outer one is too small? No: 1110 >= 1000, so it is found and hides the inner one.
    let found = pipeline.classify_ordered(&index, &vec![4, 8], now);
    assert_eq!(found.len(), 1);
    assert_eq!(found[0].size_bytes, 1110);
    pipeline.set_min_size(1111);
    // The outer one is now too small, so the inner one is not hidden.
    let found = pipeline.classify_ordered(&index, &vec![4, 8], now);
    assert!(found.is_empty());
    pipeline.set_min_size(1000);
    let found = pipeline.classify_ordered(&index, &vec![8, 4], now);
    assert_eq!(found.len(), 2);
}

#[test]
fn default_pipeline_rules_and_stale_days() {
    let pipeline = ClassifierPipeline::default();
    assert_eq!(pipeline.min_size_bytes, 1024 * 1024);
    assert_eq!(pipeline.rules.len(), 8);
    assert_eq!(pipeline.rules[0].name(), "Node.js Dependencies");
    assert_eq!(pipeline.rules[6].name(), "Stale Downloaded Installers");
    let p = pipeline.with_stale_days(90);
    assert_eq!(p.rules.len(), 8);
    assert_eq!(p.rules[7].name(), "Stale Downloaded Installers");
    match &p.rules[7] {
        PipelineRule::Downloads(DownloadsRule { stale_days }) => assert_eq!(*stale_days, 90),
        _ => panic!("the downloads rule moves to the end"),
    }
    assert_eq!(DownloadsRule::default().stale_days, 30);
    assert_eq!(DownloadsRule::new(7).stale_days, 7);
}

#[test]
fn node_rule_needs_package_json_next_to_it() {
    let mut index = ScanIndex::new("/r".to_string());
    index.insert_record(dir(1, 0, "proj"));
    index.insert_record(dir(2, 1, "Node_Modules"));
    let nm = index.get_record(2).unwrap().copy();
    assert!(NodeRule.evaluate(&index, &nm).is_none());
    index.insert_record(file(3, 1, "PACKAGE.JSON", 1));
    let verdict = NodeRule.evaluate(&index, &nm).unwrap();
    assert_eq!(verdict.0, ArtifactCategory::NodeModules);
    assert_eq!(
        verdict.1,
        "Node.js dependencies next to package.json (re-installable via npm/yarn/pnpm)"
    );
    let f = index.get_record(3).unwrap().copy();
    assert!(NodeRule.evaluate(&index, &f).is_none());
}

#[test]
fn rust_and_python_rules() {
    let mut index = ScanIndex::new("/r".to_string());
    index.insert_record(dir(1, 0, "proj"));
    index.insert_record(dir(2, 1, "target"));
    index.insert_record(dir(3, 1, "__pycache__"));
    index.insert_record(dir(4, 1, "venv"));
    let target = index.get_record(2).unwrap().copy();
    assert!(RustRule.evaluate(&index, &target).is_none());
    index.insert_record(file(5, 1, "Cargo.toml", 1));
    assert_eq!(
        RustRule.evaluate(&index, &target).unwrap().0,
        ArtifactCategory::RustTarget
    );
    let cache = index.get_record(3).unwrap().copy();
    assert_eq!(
        PythonRule.evaluate(&index, &cache).unwrap().1,
        "Python bytecode cache folder (regenerated automatically on execution)"
    );
    let venv = index.get_record(4).unwrap().copy();
    assert!(PythonRule.evaluate(&index, &venv).is_none());
    index.insert_record(file(6, 1, "requirements.txt", 1));
    assert_eq!(
        PythonRule.evaluate(&index, &venv).unwrap().1,
        "Python virtual environment 'venv' next to project manifest"
    );
}

#[test]
fn downloads_rule_ages_installers() {
    let day: i128 = 86_400_000_000_000;
    let now = Timestamp { unix_nanos: 1000 * day };
    let mut index = ScanIndex::new("/home/u".to_string());
    let old = FileRecord::new(
        1,
        0,
        "setup.EXE".to_string(),
        "/home/u/Downloads/setup.EXE".to_string(),
        false,
        10,
        Some(Timestamp { unix_nanos: 960 * day }),
        None,
        0,
    );
    let fresh = FileRecord::new(
        2,
        0,
        "tool.msi".to_string(),
        "/home/u/Downloads/tool.msi".to_string(),
        false,
        10,
        Some(Timestamp { unix_nanos: 990 * day }),
        None,
        0,
    );
    let elsewhere = FileRecord::new(
        3,
        0,
        "setup.exe".to_string(),
        "/home/u/Desktop/setup.exe".to_string(),
        false,
        10,
        Some(Timestamp { unix_nanos: 1 * day }),
        None,
        0,
    );
    index.insert_record(old.copy());
    index.insert_record(fresh.copy());
    index.insert_record(elsewhere.copy());
    let rule = DownloadsRule::default();
    let v = rule.evaluate_at(&index, &old, now).unwrap();
    assert_eq!(v.0, ArtifactCategory::StaleInstaller);
    assert_eq!(v.1, "Downloaded installer older than 30 days (40 days old)");
    assert!(rule.evaluate_at(&index, &fresh, now).is_none());
    assert!(rule.evaluate_at(&index, &elsewhere, now).is_none());
    let strict = DownloadsRule::new(5);
    assert!(strict.evaluate_at(&index, &fresh, now).is_some());
}

#[test]
fn pipeline_without_the_time_reading_rule() {
    let pipeline = ClassifierPipeline::new(5);
    let timeless = pipeline.without_downloads();
    assert_eq!(timeless.rules.len(), 7);
    assert_eq!(timeless.min_size_bytes, 5);
    assert!(timeless.rules.iter().all(|r| r.name() != "Stale Downloaded Installers"));
    assert_eq!(timeless.rules[6].name(), pipeline.rules[7].name());
}
