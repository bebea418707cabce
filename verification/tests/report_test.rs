use sweepie_core::cleaner::history::HistoryManager;
use sweepie_core::cleaner::{CleanExecutor, CleanItemFailure, CleanItemSuccess, CleanReport};
use sweepie_core::model::candidate::{GitRepoStatus, ReclaimCandidate};
use sweepie_core::model::category::ArtifactCategory;
use sweepie_core::model::file_record::Timestamp;
use sweepie_core::output::{format_date, shown_path, ScanResultJson};
use sweepie_core::scanner::use_mft_scanner;

const HEAVY97: &str = "═════════════════════════════════════════════════════════════════════════════════════════════════";
const LIGHT97: &str = "─────────────────────────────────────────────────────────────────────────────────────────────────";

fn cand(path: &str, size: u64, safe: bool, reason: &str, modified: Option<Timestamp>) -> ReclaimCandidate {
    ReclaimCandidate::new(
        ArtifactCategory::RustTarget,
        path.to_string(),
        size,
        modified,
        1,
        safe,
        reason.to_string(),
        GitRepoStatus::NotInRepo,
    )
}

#[test]
fn table_lines_have_the_expected_layout() {
    let day = 86_400_000_000_000i128;
    let c1 = cand("/w/app/target", 2048, true, "Rust build", Some(Timestamp { unix_nanos: 19_000 * day }));
    let c2 = cand(
        "/a/very/long/path/that/goes/on/and/on/for/quite/a/while/target",
        5,
        false,
        "dirty tree",
        None,
    );
    let result = ScanResultJson::new(vec![c1, c2], 10, 1234);
    assert_eq!(HEAVY97.chars().count(), 97);
    assert_eq!(LIGHT97.chars().count(), 97);
    let timing = "  Scan completed in: 1.23s".to_string();

    let lines = result.human_table_lines(false, timing.clone());
    let expected_row = format!(
        "  {:<10} {:<24} {:<10} {:<12} {}",
        "[SAFE]", "Rust Build Files", "2.00 KB", "2022-01-08", "/w/app/target"
    );
    let expected: Vec<String> = vec![
        String::new(),
        HEAVY97.to_string(),
        "  SWEEPIE — High-Performance Disk Space Reclaimer".to_string(),
        HEAVY97.to_string(),
        timing.clone(),
        LIGHT97.to_string(),
        format!("  {:<10} {:<24} {:<10} {:<12} {:<40}", "STATUS", "CATEGORY", "SIZE", "MODIFIED", "PATH"),
        format!("  {:-<10} {:-<24} {:-<10} {:-<12} {:-<40}", "", "", "", "", ""),
        expected_row.clone(),
        LIGHT97.to_string(),
        "  Found 1 safe items (2.00 KB). Review carefully before cleaning.".to_string(),
        "  Note: 1 item(s) skipped due to active locks or dirty git trees. Use --all to view.".to_string(),
        String::new(),
    ];
    assert_eq!(lines, expected);

    let all = result.human_table_lines(true, timing.clone());
    let long = "/a/very/long/path/that/goes/on/and/on/for/quite/a/while/target";
    let shown = format!("...{}", &long[long.len() - 42..]);
    assert_eq!(all[8], expected_row);
    assert_eq!(
        all[9],
        format!("  {:<10} {:<24} {:<10} {:<12} {}", "[SKIP]", "Rust Build Files", "5 B", "unknown", shown)
    );
    assert_eq!(all[10], "             ↳ Reason: dirty tree");
    assert_eq!(all.len(), 14);
    assert_eq!(all[12], "  Found 1 safe items (2.00 KB). Review carefully before cleaning.");

    let nothing = ScanResultJson::new(vec![cand("/x", 1, false, "r", None)], 1, 0);
    let lines = nothing.human_table_lines(false, "t".to_string());
    assert_eq!(lines.len(), 8);
    assert_eq!(lines[6], "  No reclaimable build artifacts or dead caches found.");
    assert_eq!(lines[7], LIGHT97);
}

#[test]
fn shown_paths_and_dates() {
    assert_eq!(shown_path("/short"), "/short");
    let exact45 = "a".repeat(45);
    assert_eq!(shown_path(&exact45), exact45);
    let p46 = format!("b{}", "a".repeat(45));
    assert_eq!(shown_path(&p46), format!("...{}", "a".repeat(42)));
    let with_accents = format!("{}é{}", "x".repeat(10), "y".repeat(42));
    assert_eq!(shown_path(&with_accents), format!("...{}", "y".repeat(42)));
    assert_eq!(format_date(Some(Timestamp { unix_nanos: 0 }), "%Y-%m-%d"), "1970-01-01");
    assert_eq!(
        format_date(Some(Timestamp { unix_nanos: -1 }), "%Y-%m-%d %H:%M:%S UTC"),
        "1969-12-31 23:59:59 UTC"
    );
    assert_eq!(
        format_date(Some(Timestamp { unix_nanos: 1_700_000_000_500_000_000 }), "%Y-%m-%d %H:%M:%S UTC"),
        "2023-11-14 22:13:20 UTC"
    );
    assert_eq!(format_date(None, "%Y-%m-%d"), "unknown");
    assert_eq!(format_date(Some(Timestamp { unix_nanos: i128::MAX }), "%Y-%m-%d"), "unknown");
    assert_eq!(
        format_date(Some(Timestamp { unix_nanos: 9_000_000_000_000_000_000_000 }), "%Y-%m-%d"),
        "unknown"
    );
}

#[test]
fn history_report_lines() {
    let empty = HistoryManager::history_lines(&vec![]);
    assert_eq!(empty.len(), 6);
    assert_eq!(empty[2], "  UNDRIFT CLEANUP HISTORY");
    assert_eq!(empty[4], "  No previous cleanup actions recorded.");
    let r1 = HistoryManager::history_record(
        Timestamp { unix_nanos: 1_700_000_000_000_000_000 },
        2,
        2048,
        false,
        vec!["/a/target".to_string(), "/b/node_modules".to_string()],
    );
    let r2 = HistoryManager::history_record(Timestamp { unix_nanos: 0 }, 1, 1024, true, vec![]);
    let lines = HistoryManager::history_lines(&vec![r1, r2]);
    assert_eq!(lines[4], "  Total cleanups: 2  |  Lifetime space reclaimed: 3.00 KB");
    assert_eq!(lines[6], "  [1] 2023-11-14 22:13:20 UTC | Reclaimed: 2.00 KB (2 items, Recycle Bin)");
    assert_eq!(lines[7], "      ↳ /a/target");
    assert_eq!(lines[8], "      ↳ /b/node_modules");
    assert_eq!(lines[9], "  [2] 1970-01-01 00:00:00 UTC | Reclaimed: 1.00 KB (1 items, Permanent)");
    assert_eq!(lines.len(), 12);
    assert_eq!(lines[11], "");
}

#[test]
fn cleanup_review_and_summary_lines() {
    let paths = vec!["/a/target".to_string(), "/b".to_string()];
    let review = CleanExecutor::review_lines(&paths, false, false);
    assert_eq!(review[2], "  UNDRIFT CLEANUP REVIEW");
    assert_eq!(review[4], "  Mode: Recycle Bin (Default & Safe)");
    assert_eq!(review[5], "  Items to remove: 2");
    assert_eq!(review[7], "  [1] /a/target");
    assert_eq!(review[8], "  [2] /b");
    assert_eq!(review.len(), 10);
    assert_eq!(CleanExecutor::review_lines(&paths, true, true)[4], "  Mode: SIMULATION (Dry-Run)");
    assert_eq!(CleanExecutor::review_lines(&paths, false, true)[4], "  Mode: PERMANENT DELETION");

    let report = CleanReport {
        total_reclaimed_bytes: 10,
        human_total_reclaimed: "10 B".to_string(),
        succeeded: vec![CleanItemSuccess { path: "/ok".to_string(), bytes_reclaimed: 10 }],
        failed: vec![CleanItemFailure { path: "/bad".to_string(), error_message: "denied".to_string() }],
        is_dry_run: false,
        was_permanent: false,
        timestamp: Timestamp { unix_nanos: 0 },
    };
    assert_eq!(
        report.summary_lines(),
        vec![
            String::new(),
            "  Cleanup complete! Successfully reclaimed: 10 B".to_string(),
            "  Encountered 1 failure(s):".to_string(),
            "    - /bad: denied".to_string(),
            String::new(),
        ]
    );
}

#[test]
fn confirmation_answers() {
    assert!(CleanExecutor::is_confirmation("y\n"));
    assert!(CleanExecutor::is_confirmation("  YES  \r\n"));
    assert!(!CleanExecutor::is_confirmation("no"));
    assert!(!CleanExecutor::is_confirmation(""));
    assert!(!CleanExecutor::is_confirmation("yess"));
}

#[test]
fn mft_scanner_choice() {
    assert!(use_mft_scanner("C:", false));
    assert!(use_mft_scanner("C:\\", false));
    assert!(!use_mft_scanner("C:\\dev", false));
    assert!(!use_mft_scanner(".", false));
    assert!(use_mft_scanner(".", true));
    assert!(use_mft_scanner("é:", false));
    assert!(!use_mft_scanner("éé:", false));
}
