use sweepie_core::classifier::rules::browser_cache::BrowserCacheRule;
use sweepie_core::classifier::rules::consumer::TempFilesRule;
use sweepie_core::classifier::ClassifierPipeline;
use sweepie_core::model::category::ArtifactCategory;
use sweepie_core::model::file_record::{timestamp_from_clock, FileRecord, Timestamp, MAX_CLOCK_SECONDS};
use sweepie_core::scanner::index::ScanIndex;

fn rec(name: &str, path: &str, is_dir: bool) -> FileRecord {
    FileRecord::new(1, 0, name.to_string(), path.to_string(), is_dir, 0, None, None, 0)
}

#[test]
fn firefox_startup_cache_is_a_browser_cache() {
    let index = ScanIndex::new("C:".to_string());
    let record = FileRecord::new(
        1,
        0,
        "startupCache".to_string(),
        r"C:\Users\ann\AppData\Local\Mozilla\Firefox\Profiles\p\startupCache".to_string(),
        true,
        0,
        None,
        None,
        0x10,
    );
    assert_eq!(
        BrowserCacheRule.evaluate(&index, &record),
        Some((
            ArtifactCategory::BrowserCache,
            "Browser cache folder — safe to clear, won't affect bookmarks or passwords".to_string()
        ))
    );
    let elsewhere = FileRecord::new(
        2,
        0,
        "startupCache".to_string(),
        r"C:\src\startupCache".to_string(),
        true,
        0,
        None,
        None,
        0x10,
    );
    assert_eq!(BrowserCacheRule.evaluate(&index, &elsewhere), None);
}

#[test]
fn temp_folders_and_error_reporting_dumps() {
    let index = ScanIndex::new("C:".to_string());
    let e = |x: &FileRecord| TempFilesRule.evaluate(&index, x);
    assert_eq!(e(&rec("{12AB}", r"C:\Windows\Temp\{12AB}", true)), None);
    assert_eq!(e(&rec("old", r"C:\Windows\Temp\old", true)).unwrap().0, ArtifactCategory::TempFiles);
    assert_eq!(e(&rec("Temp", r"C:\Windows\Temp", true)), None);
    assert_eq!(e(&rec("core.dmp", r"C:\src\app\core.dmp", false)), None);
    let wer = e(&rec(
        "memory.DMP",
        r"C:\ProgramData\Microsoft\Windows\WER\ReportArchive\r1\memory.DMP",
        false,
    ));
    assert_eq!(
        wer,
        Some((
            ArtifactCategory::CrashDumps,
            "Windows crash dump file from a previous app crash — safe to delete".to_string()
        ))
    );
    let local = e(&rec("app.exe.42.dmp", r"C:\Users\ann\AppData\Local\CrashDumps\app.exe.42.dmp", false));
    assert_eq!(local.unwrap().0, ArtifactCategory::CrashDumps);
    assert_eq!(e(&rec("notes.txt", r"C:\Users\ann\AppData\Local\CrashDumps\notes.txt", false)), None);
}

#[test]
fn clock_readings_become_timestamps() {
    assert_eq!(timestamp_from_clock(Some((5, 7))), Some(Timestamp { unix_nanos: 5_000_000_007 }));
    assert_eq!(timestamp_from_clock(None), None);
    assert_eq!(timestamp_from_clock(Some((MAX_CLOCK_SECONDS + 1, 0))), None);
    assert_eq!(
        timestamp_from_clock(Some((MAX_CLOCK_SECONDS, 999_999_999))),
        Some(Timestamp { unix_nanos: 8_000_000_000_000_999_999_999 })
    );
}

fn stored(id: u64, parent: u64, name: &str, path: &str, is_dir: bool, size: u64) -> FileRecord {
    FileRecord::new(id, parent, name.to_string(), path.to_string(), is_dir, size, None, None, 0)
}

#[test]
fn stored_paths_out_of_step_with_parents_nest_no_candidates() {
    // The outer node_modules (4) has a deep stored path and the inner one (17)
    // a shallow one, so sorting by stored path depth takes the inner one first.
    let mut index = ScanIndex::new("/r".to_string());
    index.insert_record(stored(1, 1, "", "/r", true, 0));
    index.insert_record(stored(2, 1, "proj", "/r/proj", true, 0));
    index.insert_record(stored(3, 2, "package.json", "/r/proj/package.json", false, 10));
    index.insert_record(stored(4, 2, "node_modules", "/deep/a/b/c/d/e/f/node_modules", true, 0));
    index.insert_record(stored(19, 4, "a.js", "/r/proj/node_modules/a.js", false, 100));
    index.insert_record(stored(15, 4, "sub", "/r/proj/node_modules/sub", true, 0));
    index.insert_record(stored(16, 15, "package.json", "/r/proj/node_modules/sub/package.json", false, 10));
    index.insert_record(stored(17, 15, "node_modules", "/s/node_modules", true, 0));
    index.insert_record(stored(18, 17, "b.js", "/s/node_modules/b.js", false, 1000));
    let pipeline = ClassifierPipeline::new(0);
    let now = Timestamp { unix_nanos: 0 };
    let in_that_order = pipeline.classify_ordered(&index, &vec![17, 4], now);
    assert_eq!(in_that_order.len(), 2);
    let all = pipeline.classify_at(&index, now);
    assert_eq!(all.len(), 1);
    assert_eq!(all[0].category, ArtifactCategory::NodeModules);
    assert_eq!(all[0].path, "/deep/a/b/c/d/e/f/node_modules");
    assert_eq!(all[0].size_bytes, 1110);
    assert_eq!(all[0].file_count, 3);
}

#[test]
fn nested_node_modules_without_stored_paths() {
    let mut index = ScanIndex::new("/r".to_string());
    let d = |i: u64, q: u64, n: &str, is_dir: bool, s: u64| {
        FileRecord::new(i, q, n.to_string(), String::new(), is_dir, s, None, None, 0)
    };
    index.insert_record(d(11, 0, "a", true, 0));
    index.insert_record(d(12, 11, "package.json", false, 10));
    index.insert_record(d(13, 11, "node_modules", true, 0));
    index.insert_record(d(14, 13, "c", true, 0));
    index.insert_record(d(15, 14, "package.json", false, 10));
    index.insert_record(d(16, 14, "node_modules", true, 0));
    index.insert_record(d(17, 16, "f.js", false, 7));
    let r = ClassifierPipeline::new(0).classify_at(&index, Timestamp { unix_nanos: 0 });
    assert_eq!(r.len(), 1);
    assert_eq!(r[0].category, ArtifactCategory::NodeModules);
    assert_eq!(r[0].path, "/r/a/node_modules");
    assert_eq!(r[0].size_bytes, 17);
    assert_eq!(r[0].file_count, 2);
}
