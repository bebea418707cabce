use sweepie_core::cleaner::history::HistoryManager;
use sweepie_core::cleaner::{CleanExecutor, CleanReport, CleanStage, CleanStep};
use sweepie_core::model::candidate::{GitRepoStatus, ReclaimCandidate};
use sweepie_core::model::category::ArtifactCategory;
use sweepie_core::model::file_record::Timestamp;
use sweepie_core::output::ScanResultJson;

/// What the disk looks like to a simulated cleanup: whether each target
/// exists, what its safety re-check says, and how its deletion goes.
struct Disk {
    existing: Vec<String>,
    unsafe_reason: Option<(String, String)>,
    failing_delete: Option<(String, String)>,
    deleted: Vec<String>,
}

/// Drives the cleanup decisions the way the command-line tool does, against a
/// simulated disk.
fn clean_targets(targets: &[(&str, u64)], permanent: bool, dry_run: bool, disk: &mut Disk) -> CleanReport {
    let mut ex = CleanExecutor::start(permanent, dry_run);
    for (path, size) in targets {
        let exists = disk.existing.iter().any(|p| p == path);
        let mut step = ex.on_existence(path, *size, exists);
        if step == CleanStep::CheckSafety {
            let reason = match &disk.unsafe_reason {
                Some((p, r)) if p == path => Some(r.clone()),
                _ => None,
            };
            step = ex.on_safety_check(path, reason);
        }
        if step == CleanStep::Delete {
            assert!(!ex.dry_run);
            let result = match &disk.failing_delete {
                Some((p, e)) if p == path => Err(e.clone()),
                _ => {
                    disk.deleted.push(path.to_string());
                    disk.existing.retain(|p| p != path);
                    Ok(())
                }
            };
            ex.on_delete(path, *size, result);
        }
        assert_eq!(ex.stage, CleanStage::Idle);
    }
    ex.finish(Timestamp { unix_nanos: 0 })
}

fn disk(existing: &[&str]) -> Disk {
    Disk {
        existing: existing.iter().map(|s| s.to_string()).collect(),
        unsafe_reason: None,
        failing_delete: None,
        deleted: Vec::new(),
    }
}

#[test]
fn test_cleaner_dry_run_and_permanent() {
    let target_dir = "/tmp/sweepie-clean/artifact_dir";
    let mut d = disk(&[target_dir]);
    let targets = vec![(target_dir, 2048)];

    // Dry run
    let report_dry = clean_targets(&targets, false, true, &mut d);
    assert_eq!(report_dry.total_reclaimed_bytes, 2048);
    assert!(report_dry.is_dry_run);
    assert!(d.existing.contains(&target_dir.to_string()), "Dry run must not delete files");

    // Permanent deletion
    let report_perm = clean_targets(&targets, true, false, &mut d);
    assert_eq!(report_perm.total_reclaimed_bytes, 2048);
    assert!(report_perm.was_permanent);
    assert!(
        !d.existing.contains(&target_dir.to_string()),
        "Permanent delete must remove directory"
    );
}

#[test]
fn test_cleaner_skips_nonexistent() {
    let fake_path = "/tmp/sweepie-clean/does_not_exist";
    let targets = vec![(fake_path, 1000)];
    let mut d = disk(&[]);

    let report = clean_targets(&targets, true, false, &mut d);
    assert_eq!(report.total_reclaimed_bytes, 0);
    assert_eq!(report.succeeded.len(), 0);
    assert_eq!(report.failed.len(), 1);
    assert_eq!(report.failed[0].path, fake_path);
    assert_eq!(report.failed[0].error_message, "Path does not exist");
}

#[test]
fn failed_recheck_and_failed_delete_are_reported() {
    let mut d = disk(&["/a", "/b", "/c"]);
    d.unsafe_reason = Some(("/a".to_string(), "Git repository is dirty".to_string()));
    d.failing_delete = Some(("/b".to_string(), "Access is denied.".to_string()));
    let report = clean_targets(&[("/a", 10), ("/b", 20), ("/c", 30)], false, false, &mut d);
    assert_eq!(report.total_reclaimed_bytes, 30);
    assert_eq!(report.human_total_reclaimed, "30 B");
    assert_eq!(report.succeeded.len(), 1);
    assert_eq!(report.succeeded[0].path, "/c");
    assert_eq!(report.failed.len(), 2);
    assert_eq!(report.failed[0].error_message, "Safety re-check failed: Git repository is dirty");
    assert_eq!(report.failed[1].error_message, "Access is denied.");
    assert_eq!(d.deleted, vec!["/c".to_string()]);
    assert!(!report.was_permanent);
}

#[test]
fn history_is_recorded_only_for_real_removals() {
    let mut ex = CleanExecutor::start(false, true);
    assert_eq!(ex.on_existence("/x", 5, true), CleanStep::Done);
    assert!(!ex.should_record_history());
    let mut real = CleanExecutor::start(true, false);
    assert!(!real.should_record_history());
    assert_eq!(real.on_existence("/y", 7, true), CleanStep::CheckSafety);
    assert_eq!(real.on_safety_check("/y", None), CleanStep::Delete);
    real.on_delete("/y", 7, Ok(()));
    assert!(real.should_record_history());
    assert_eq!(real.succeeded_paths(), vec!["/y".to_string()]);
}

#[test]
fn history_records_and_totals() {
    let r1 = HistoryManager::history_record(
        Timestamp { unix_nanos: 1 },
        2,
        3 * 1024 * 1024,
        false,
        vec!["/a".to_string(), "/b".to_string()],
    );
    assert_eq!(r1.human_reclaimed, "3.00 MB");
    assert_eq!(r1.items_count, 2);
    let r2 = HistoryManager::history_record(Timestamp { unix_nanos: 2 }, 1, u64::MAX, true, vec![]);
    let total = HistoryManager::total_reclaimed(&vec![r1, r2]);
    assert_eq!(total, 3 * 1024 * 1024 + u64::MAX as u128);
    assert_eq!(HistoryManager::total_reclaimed(&vec![]), 0);
}

fn cand(size: u64, safe: bool) -> ReclaimCandidate {
    ReclaimCandidate::new(
        ArtifactCategory::NodeModules,
        "/p/node_modules".to_string(),
        size,
        None,
        1,
        safe,
        String::new(),
        GitRepoStatus::NotInRepo,
    )
}

#[test]
fn scan_summary_counts_safe_candidates() {
    let result = ScanResultJson::new(vec![cand(1024, true), cand(5000, false), cand(2048, true)], 99, 1500);
    assert_eq!(result.total_reclaimable_bytes, 3072);
    assert_eq!(result.human_total_reclaimable, "3.00 KB");
    assert_eq!(result.safe_count, 2);
    assert_eq!(result.unsafe_count, 1);
    assert_eq!(result.total_files_scanned, 99);
    assert_eq!(result.scan_time_ms, 1500);
    assert_eq!(result.candidates.len(), 3);
    let empty = ScanResultJson::new(vec![], 0, 0);
    assert_eq!(empty.total_reclaimable_bytes, 0);
    assert_eq!(empty.human_total_reclaimable, "0 B");
}

#[test]
fn a_dry_run_never_asks_for_a_deletion() {
    let mut ex = CleanExecutor::start(true, true);
    for (path, exists) in [("/a", true), ("/b", false), ("/c", true)] {
        let step = ex.on_existence(path, 1, exists);
        assert_eq!(step, CleanStep::Done);
        assert_eq!(ex.stage, CleanStage::Idle);
    }
    let report = ex.finish(Timestamp { unix_nanos: 0 });
    assert_eq!(report.succeeded.len(), 2);
    assert_eq!(report.failed.len(), 1);
    assert!(report.is_dry_run);
    assert!(report.was_permanent);
}
