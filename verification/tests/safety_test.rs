use sweepie_core::model::candidate::{GitRepoStatus, ReclaimCandidate};
use sweepie_core::model::category::ArtifactCategory;
use sweepie_core::safety::cloud_storage::CloudStorageChecker;
use sweepie_core::safety::git::{
    CachedRepoStatus, GitSafetyChecker, GIT_STATUS_INDEX_MODIFIED, GIT_STATUS_WT_NEW,
    GIT_STATUS_WT_RENAMED,
};
use sweepie_core::safety::in_use::InUseChecker;
use sweepie_core::safety::reparse::ReparseChecker;
use sweepie_core::safety::{CheckStage, LaterCheck, SafetyPipeline};

fn candidate(path: &str) -> ReclaimCandidate {
    ReclaimCandidate::new(
        ArtifactCategory::RustTarget,
        path.to_string(),
        1024,
        None,
        1,
        true,
        "Rust build output".to_string(),
        GitRepoStatus::NotInRepo,
    )
}

#[test]
fn dirty_status_bits() {
    assert!(GitSafetyChecker::is_dirty_status(GIT_STATUS_WT_NEW));
    assert!(GitSafetyChecker::is_dirty_status(GIT_STATUS_INDEX_MODIFIED));
    assert!(GitSafetyChecker::is_dirty_status(GIT_STATUS_WT_RENAMED | 1 << 14));
    // Ignored (1 << 14) and conflicted (1 << 15) entries alone are not changes.
    assert!(!GitSafetyChecker::is_dirty_status(1 << 14));
    assert!(!GitSafetyChecker::is_dirty_status(1 << 15));
    assert!(!GitSafetyChecker::is_dirty_status(0));
}

#[test]
fn dirty_verdicts_count_changes_outside_the_candidate() {
    let status = CachedRepoStatus {
        repo_workdir: "/repo".to_string(),
        dirty_files: vec![
            "target/build.log".to_string(),
            "Cargo.toml".to_string(),
            "src/main.rs".to_string(),
        ],
    };
    let (s, reason) =
        GitSafetyChecker::evaluate_candidate_against_dirty_files("/repo/target", &status);
    assert_eq!(s, GitRepoStatus::Dirty { modified_count: 2 });
    assert_eq!(
        reason.unwrap(),
        "Git repository at '/repo' has 2 uncommitted change(s). Commit or stash before cleaning."
    );
    let clean = CachedRepoStatus {
        repo_workdir: "/repo".to_string(),
        dirty_files: vec!["target/x".to_string()],
    };
    let (s, reason) =
        GitSafetyChecker::evaluate_candidate_against_dirty_files("/repo/target", &clean);
    assert_eq!(s, GitRepoStatus::Clean);
    assert!(reason.is_none());
    let (s, reason) = GitSafetyChecker::verdict_for("/x", &Err("bad".to_string()));
    assert_eq!(s, GitRepoStatus::Error { message: "bad".to_string() });
    assert_eq!(reason.unwrap(), "bad");
}

#[test]
fn verdict_counts_files_outside_the_candidate() {
    let (s, reason) = GitSafetyChecker::verdict_from_containment("/w", &vec![true, false, false]);
    assert_eq!(s, GitRepoStatus::Dirty { modified_count: 2 });
    assert_eq!(
        reason.unwrap(),
        "Git repository at '/w' has 2 uncommitted change(s). Commit or stash before cleaning."
    );
    assert_eq!(
        GitSafetyChecker::verdict_from_containment("/w", &vec![true, true]),
        (GitRepoStatus::Clean, None)
    );
    assert_eq!(
        GitSafetyChecker::verdict_from_containment("/w", &vec![]),
        (GitRepoStatus::Clean, None)
    );
    assert_eq!(
        GitSafetyChecker::dirty_verdict("/w", 0),
        (GitRepoStatus::Clean, None)
    );
}

#[test]
fn status_entries_become_cached_status() {
    let entries = vec![
        (GIT_STATUS_WT_NEW, Some("a.txt".to_string())),
        (1 << 14, Some("ignored.log".to_string())),
        (GIT_STATUS_INDEX_MODIFIED, None),
        (GIT_STATUS_INDEX_MODIFIED, Some("b.rs".to_string())),
    ];
    assert_eq!(
        GitSafetyChecker::dirty_paths(&entries),
        vec!["a.txt".to_string(), "b.rs".to_string()]
    );
    match GitSafetyChecker::repo_status_from("/w", Ok(entries)) {
        Ok(st) => {
            assert_eq!(st.repo_workdir, "/w");
            assert_eq!(st.dirty_files.len(), 2);
        }
        Err(_) => panic!("status was read"),
    }
    match GitSafetyChecker::repo_status_from("/w", Err("locked index".to_string())) {
        Err(m) => assert_eq!(m, "Git error reading repository status: locked index"),
        Ok(_) => panic!("status read failed"),
    }
}

#[test]
fn paths_outside_any_repository_are_cached() {
    let mut checker = GitSafetyChecker::new();
    let path = "/nonexistent-sweepie-dir/definitely/not/here";
    let (s, reason) = checker.check_path(path);
    assert_eq!(s, GitRepoStatus::NotInRepo);
    assert!(reason.is_none());
    assert_eq!(checker.not_in_repo, vec![path.to_string()]);
    let again = checker.check_path(path);
    assert_eq!(again, (GitRepoStatus::NotInRepo, None));
    assert_eq!(checker.not_in_repo.len(), 1);
    // A path below one recorded as outside any repository is looked up on its
    // own (a repository may lie below), and recorded in turn.
    let below = checker.check_path("/nonexistent-sweepie-dir/definitely/not/here/deeper");
    assert_eq!(below.0, GitRepoStatus::NotInRepo);
    assert_eq!(checker.not_in_repo.len(), 2);
    let once = GitSafetyChecker::check_path_once(path);
    assert_eq!(once.0, GitRepoStatus::NotInRepo);
    let default = GitSafetyChecker::default();
    assert!(default.repo_cache.is_empty());
}

#[test]
fn cloud_storage_verdicts() {
    assert!(CloudStorageChecker::in_cloud_storage("C:\\Users\\me\\OneDrive\\x"));
    assert!(CloudStorageChecker::in_cloud_storage("/home/me/Google Drive/y"));
    assert!(!CloudStorageChecker::in_cloud_storage("/home/me/dev"));
    assert_eq!(
        CloudStorageChecker::verdict_windows("C:\\dev", Some(0x0040_0000)).unwrap(),
        "File is an online-only cloud placeholder (recall on access)"
    );
    assert_eq!(
        CloudStorageChecker::verdict_windows("C:\\Dropbox\\x", Some(0x400)).unwrap(),
        "Path is managed as a cloud storage sync reparse point"
    );
    assert!(CloudStorageChecker::verdict_windows("C:\\dev\\x", Some(0x400)).is_none());
    assert!(CloudStorageChecker::verdict_windows("C:\\Dropbox\\x", None).is_none());
    assert_eq!(
        CloudStorageChecker::verdict_other("/home/me/iCloud/x", Some(true)).unwrap(),
        "Path is managed as a cloud storage sync link"
    );
    assert!(CloudStorageChecker::verdict_other("/home/me/iCloud/x", Some(false)).is_none());
    assert!(CloudStorageChecker::verdict_other("/home/me/x", Some(true)).is_none());
}

#[test]
fn lock_and_reparse_verdicts() {
    assert_eq!(
        InUseChecker::file_probe_verdict(true).unwrap(),
        "File is currently open or locked by another process"
    );
    assert!(InUseChecker::file_probe_verdict(false).is_none());
    assert_eq!(
        InUseChecker::lock_probe_names(),
        vec![".lock", ".package-cache", ".cargo-lock"]
    );
    assert_eq!(
        InUseChecker::lock_file_verdict(".cargo-lock", true).unwrap(),
        "Lock file '.cargo-lock' is active in another running process"
    );
    assert!(InUseChecker::lock_file_verdict(".lock", false).is_none());
    assert_eq!(
        InUseChecker::is_locked(Some("rm".to_string()), Some("probe".to_string())),
        Some("rm".to_string())
    );
    assert_eq!(
        InUseChecker::is_locked(None, Some("probe".to_string())),
        Some("probe".to_string())
    );
    assert_eq!(
        InUseChecker::holders_verdict(
            &vec!["Code.exe".to_string(), String::new(), "cargo".to_string()],
            3
        ),
        "Active file locks held by: Code.exe, cargo"
    );
    assert_eq!(
        InUseChecker::holders_verdict(&vec![String::new()], 4),
        "Active file locks held by 4 running process(es)"
    );
    assert_eq!(
        InUseChecker::name_units(&[104, 105, 0, 120]),
        vec![104u16, 105]
    );
    assert_eq!(InUseChecker::name_units(&[1, 2]), vec![1u16, 2]);
    assert_eq!(
        ReparseChecker::verdict(Some((true, None))).unwrap(),
        "Target is a symbolic link or junction point (skipping target traversal)"
    );
    assert_eq!(
        ReparseChecker::verdict(Some((false, Some(0x410)))).unwrap(),
        "Target is an NTFS reparse point or volume junction"
    );
    assert!(ReparseChecker::verdict(Some((false, Some(0x10)))).is_none());
    assert!(ReparseChecker::verdict(None).is_none());
}

#[test]
fn pipeline_marks_candidates() {
    let mut c = candidate("/p/target");
    let go_on = SafetyPipeline::apply_git_verdict(
        &mut c,
        GitRepoStatus::Dirty { modified_count: 1 },
        Some("dirty tree".to_string()),
    );
    assert!(!go_on);
    assert!(!c.is_safe);
    assert!(!c.default_selected);
    assert_eq!(c.safety_reason, "dirty tree");
    assert_eq!(c.git_status, GitRepoStatus::Dirty { modified_count: 1 });

    let mut d = candidate("/p/target");
    assert!(SafetyPipeline::apply_git_verdict(&mut d, GitRepoStatus::Clean, None));
    assert!(SafetyPipeline::apply_check(&mut d, None));
    assert!(d.is_safe);
    assert!(!SafetyPipeline::apply_check(&mut d, Some("locked".to_string())));
    assert!(!d.is_safe);
    assert_eq!(d.safety_reason, "locked");
    SafetyPipeline::mark_safe(&mut d);
    assert!(d.is_safe && d.default_selected);

    let mut e = candidate("/nonexistent-sweepie-dir/t");
    let mut checker = GitSafetyChecker::new();
    assert!(SafetyPipeline::check_git(&mut e, &mut checker));
    assert_eq!(e.git_status, GitRepoStatus::NotInRepo);

    assert_eq!(
        SafetyPipeline::first_failure(None, Some("cloud".to_string()), Some("lock".to_string()), None),
        Some("cloud".to_string())
    );
    assert_eq!(SafetyPipeline::first_failure(None, None, None, None), None);
    assert_eq!(
        SafetyPipeline::first_failure(None, None, None, Some("link".to_string())),
        Some("link".to_string())
    );
}

/// A fresh repository under /tmp, made with git2 alone.
fn fresh_repo() -> (git2::Repository, String) {
    let dir = format!("/tmp/sweepie-git-{}", uuid::Uuid::new_v4());
    let repo = git2::Repository::init(&dir).unwrap();
    (repo, dir)
}

#[test]
fn test_git_dirty_safety_check() {
    let (repo, dir) = fresh_repo();
    let candidate_path = format!("{dir}/.git");

    // Test when repo is clean
    let mut candidate = candidate(&candidate_path);
    let mut checker = GitSafetyChecker::new();
    assert!(SafetyPipeline::check_git(&mut candidate, &mut checker));
    assert_eq!(candidate.git_status, GitRepoStatus::Clean);
    assert!(candidate.is_safe);

    // Now stage a new file outside the candidate (no working-tree copy)
    let mut index = repo.index().unwrap();
    let entry = git2::IndexEntry {
        ctime: git2::IndexTime::new(0, 0),
        mtime: git2::IndexTime::new(0, 0),
        dev: 0,
        ino: 0,
        mode: 0o100644,
        uid: 0,
        gid: 0,
        file_size: 0,
        id: git2::Oid::zero(),
        flags: 0,
        flags_extended: 0,
        path: b"Cargo.toml".to_vec(),
    };
    index.add_frombuffer(&entry, b"[package]\nname = \"foo\"").unwrap();
    index.write().unwrap();

    // Re-evaluate with a fresh cache
    let mut checker = GitSafetyChecker::new();
    let mut candidate = self::candidate(&candidate_path);
    assert!(!SafetyPipeline::check_git(&mut candidate, &mut checker));
    assert!(!candidate.is_safe);
    assert!(!candidate.default_selected);
    match candidate.git_status {
        GitRepoStatus::Dirty { modified_count } => {
            assert!(modified_count >= 1);
        }
        _ => panic!("Expected GitRepoStatus::Dirty"),
    }
    assert!(candidate.safety_reason.contains("uncommitted change"));
    assert_eq!(checker.repo_cache.len(), 1);

    // The cached status answers the next question about the same repository.
    let again = checker.check_path(&candidate_path);
    assert_eq!(again.0, GitRepoStatus::Dirty { modified_count: 1 });
    assert_eq!(checker.repo_cache.len(), 1);
    let once = GitSafetyChecker::check_path_once(&candidate_path);
    assert_eq!(once.0, GitRepoStatus::Dirty { modified_count: 1 });
}

#[test]
fn slash_paths_count_exactly_the_changes_outside_the_target() {
    let status = CachedRepoStatus {
        repo_workdir: "/w/".to_string(),
        dirty_files: vec!["src/a.rs".to_string(), "target/x.o".to_string(), "README.md".to_string()],
    };
    let (s, reason) = GitSafetyChecker::evaluate_candidate_against_dirty_files("/w/target", &status);
    assert_eq!(s, GitRepoStatus::Dirty { modified_count: 2 });
    assert_eq!(
        reason.unwrap(),
        "Git repository at '/w/' has 2 uncommitted change(s). Commit or stash before cleaning."
    );
    let inside_only = CachedRepoStatus { repo_workdir: "/w/".to_string(), dirty_files: vec!["target/x.o".to_string()] };
    assert_eq!(
        GitSafetyChecker::evaluate_candidate_against_dirty_files("/w/target", &inside_only),
        (GitRepoStatus::Clean, None)
    );
    // A sibling whose name merely begins with the target's is outside it.
    let sibling = CachedRepoStatus { repo_workdir: "/w/".to_string(), dirty_files: vec!["targets/y".to_string()] };
    assert_eq!(
        GitSafetyChecker::evaluate_candidate_against_dirty_files("/w/target", &sibling).0,
        GitRepoStatus::Dirty { modified_count: 1 }
    );
}

#[test]
fn answers_after_discovery_and_status_read() {
    let mut checker = GitSafetyChecker::new();
    assert_eq!(checker.answer_from_workdir("/x", &None), Some((GitRepoStatus::NotInRepo, None)));
    assert_eq!(checker.not_in_repo, vec!["/x".to_string()]);
    let workdir = Some("/w/".to_string());
    assert_eq!(checker.answer_from_workdir("/w/target", &workdir), None);
    let entries = vec![
        (256, Some("src/a.rs".to_string())),
        (0, Some("b".to_string())),
        (128, Some("target/new".to_string())),
    ];
    let v = checker.answer_with_status("/w/target", "/w/".to_string(), Ok(entries));
    assert_eq!(v.0, GitRepoStatus::Dirty { modified_count: 1 });
    assert_eq!(checker.repo_cache.len(), 1);
    // The cached status answers the next target in the same working directory.
    let again = checker.answer_from_workdir("/w/target/sub", &workdir).unwrap();
    assert_eq!(again.0, GitRepoStatus::Dirty { modified_count: 2 });
    // check_path finds the cached working directory that covers the target.
    assert_eq!(checker.check_path("/w/target").0, GitRepoStatus::Dirty { modified_count: 1 });
    assert_eq!(checker.repo_cache.len(), 1);
    let failed = checker.answer_with_status("/v/t", "/v/".to_string(), Err("locked".to_string()));
    let message = "Git error reading repository status: locked".to_string();
    assert_eq!(failed, (GitRepoStatus::Error { message: message.clone() }, Some(message)));
}

#[test]
fn later_checks_run_in_order_until_one_fails() {
    assert_eq!(SafetyPipeline::after_git(true), CheckStage::Run(LaterCheck::Cloud));
    assert_eq!(SafetyPipeline::after_git(false), CheckStage::Done);
    let mut c = candidate("/w/target");
    c.is_safe = false;
    c.default_selected = false;
    assert_eq!(SafetyPipeline::after_check(&mut c, LaterCheck::Cloud, None), CheckStage::Run(LaterCheck::Lock));
    assert_eq!(SafetyPipeline::after_check(&mut c, LaterCheck::Lock, None), CheckStage::Run(LaterCheck::Junction));
    assert!(!c.is_safe);
    assert_eq!(SafetyPipeline::after_check(&mut c, LaterCheck::Junction, None), CheckStage::Done);
    assert!(c.is_safe && c.default_selected);
    let mut d = candidate("/w/target");
    assert_eq!(SafetyPipeline::after_check(&mut d, LaterCheck::Lock, Some("in use".to_string())), CheckStage::Done);
    assert!(!d.is_safe && !d.default_selected);
    assert_eq!(d.safety_reason, "in use");
}
