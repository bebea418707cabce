use sweepie_core::model::candidate::{format_size, GitRepoStatus, ReclaimCandidate};
use sweepie_core::model::category::ArtifactCategory;
use sweepie_core::model::file_record::{
    latest, now_timestamp, FileRecord, Timestamp, FILE_ATTRIBUTE_DIRECTORY, FILE_ATTRIBUTE_OFFLINE,
    FILE_ATTRIBUTE_RECALL_ON_DATA_ACCESS, FILE_ATTRIBUTE_RECALL_ON_OPEN,
    FILE_ATTRIBUTE_REPARSE_POINT,
};

fn reference_size(bytes: u64) -> String {
    const KB: u64 = 1024;
    const MB: u64 = KB * 1024;
    const GB: u64 = MB * 1024;
    const TB: u64 = GB * 1024;
    if bytes >= TB {
        format!("{:.2} TB", bytes as f64 / TB as f64)
    } else if bytes >= GB {
        format!("{:.2} GB", bytes as f64 / GB as f64)
    } else if bytes >= MB {
        format!("{:.2} MB", bytes as f64 / MB as f64)
    } else if bytes >= KB {
        format!("{:.2} KB", bytes as f64 / KB as f64)
    } else {
        format!("{bytes} B")
    }
}

#[test]
fn format_size_exact_values() {
    assert_eq!(format_size(0), "0 B");
    assert_eq!(format_size(1023), "1023 B");
    assert_eq!(format_size(1024), "1.00 KB");
    assert_eq!(format_size(1152), "1.12 KB");
    assert_eq!(format_size(1536), "1.50 KB");
    assert_eq!(format_size(1024 * 1024), "1.00 MB");
    assert_eq!(format_size(5 * 1024 * 1024 * 1024), "5.00 GB");
    assert_eq!(format_size(1024u64.pow(4)), "1.00 TB");
    assert_eq!(format_size(u64::MAX), reference_size(u64::MAX));
}

#[test]
fn format_size_agrees_with_float_formatting() {
    let mut samples: Vec<u64> = Vec::new();
    for b in 0..5000u64 {
        samples.push(b);
    }
    let mut x: u64 = 1;
    while x < u64::MAX / 3 {
        for d in [0u64, 1, 2, 5, 9, 10, 11, 511, 512, 513] {
            samples.push(x.wrapping_add(d));
            samples.push(x.wrapping_sub(d));
        }
        x = x * 3 + 7;
    }
    for p in 10..64u32 {
        let base = 1u64 << p;
        for k in [1u64, 3, 5, 7, 1000, 1023] {
            let step = base / 1024;
            samples.push(base.wrapping_add(step.wrapping_mul(k) / 200));
            samples.push(base / 200 * 1 + base);
            samples.push(base.wrapping_add(k));
        }
    }
    for b in samples {
        assert_eq!(format_size(b), reference_size(b), "bytes = {b}");
    }
}

#[test]
fn git_status_safety_and_summary() {
    assert!(GitRepoStatus::NotInRepo.is_safe());
    assert!(GitRepoStatus::Clean.is_safe());
    assert!(!GitRepoStatus::Dirty { modified_count: 3 }.is_safe());
    assert!(!GitRepoStatus::Error { message: "boom".to_string() }.is_safe());
    assert_eq!(GitRepoStatus::NotInRepo.display_summary(), "Not in Git repository");
    assert_eq!(GitRepoStatus::Clean.display_summary(), "Git working tree clean");
    assert_eq!(
        GitRepoStatus::Dirty { modified_count: 12 }.display_summary(),
        "Git working tree dirty (12 uncommitted files)"
    );
    assert_eq!(
        GitRepoStatus::Error { message: "no repo".to_string() }.display_summary(),
        "Git check error: no repo"
    );
}

#[test]
fn category_texts() {
    assert_eq!(ArtifactCategory::NodeModules.display_name(), "Node.js Project Files");
    assert_eq!(ArtifactCategory::RustTarget.display_name(), "Rust Build Files");
    assert_eq!(ArtifactCategory::StaleInstaller.display_name(), "Old Setup Files");
    assert_eq!(ArtifactCategory::Unity.icon_glyph(), "🕹️");
    assert_eq!(ArtifactCategory::RustTarget.icon_glyph(), "🦀");
    assert_eq!(
        ArtifactCategory::PythonCache.description(),
        "__pycache__ folders with compiled Python files. Regenerated automatically on next run."
    );
    assert!(ArtifactCategory::CrashDumps.is_consumer());
    assert!(ArtifactCategory::StaleInstaller.is_consumer());
    assert!(!ArtifactCategory::NodeModules.is_consumer());
    assert!(!ArtifactCategory::JetBrains.is_consumer());
}

#[test]
fn candidate_fields_and_hardlinks() {
    let c = ReclaimCandidate::new(
        ArtifactCategory::RustTarget,
        "/p/target".to_string(),
        2048,
        None,
        4,
        true,
        "Rust build".to_string(),
        GitRepoStatus::NotInRepo,
    );
    assert_eq!(c.display_path, "/p/target");
    assert_eq!(c.human_size, "2.00 KB");
    assert!(c.default_selected);
    assert!(!c.has_hardlinks);
    assert!(c.size_caveat.is_none());
    assert_eq!(c.id.len(), 36);
    let same = c.with_hardlink_info(0);
    assert!(!same.has_hardlinks);
    assert_eq!(same.hardlink_shared_bytes, 0);
    let shared = same.with_hardlink_info(1536);
    assert!(shared.has_hardlinks);
    assert_eq!(shared.hardlink_shared_bytes, 1536);
    assert_eq!(
        shared.size_caveat.as_deref(),
        Some("Contains hardlinked files sharing 1.50 KB with other locations (e.g. pnpm store); actual freed disk space may be less than logical size.")
    );
    let unsafe_one = ReclaimCandidate::new(
        ArtifactCategory::NodeModules,
        "/q".to_string(),
        1,
        None,
        1,
        false,
        "dirty".to_string(),
        GitRepoStatus::Clean,
    );
    assert!(!unsafe_one.default_selected);
    assert_eq!(unsafe_one.human_size, "1 B");
}

#[test]
fn candidate_ids_differ() {
    let a = ReclaimCandidate::new(
        ArtifactCategory::Unity,
        "/a".to_string(),
        1,
        None,
        1,
        true,
        String::new(),
        GitRepoStatus::NotInRepo,
    );
    let b = ReclaimCandidate::new(
        ArtifactCategory::Unity,
        "/a".to_string(),
        1,
        None,
        1,
        true,
        String::new(),
        GitRepoStatus::NotInRepo,
    );
    assert_ne!(a.id, b.id);
}

#[test]
fn file_record_flags_from_attributes() {
    let r = FileRecord::new(
        1,
        0,
        "x".to_string(),
        String::new(),
        true,
        0,
        None,
        None,
        FILE_ATTRIBUTE_DIRECTORY | FILE_ATTRIBUTE_REPARSE_POINT,
    );
    assert!(r.is_reparse_point);
    assert!(!r.is_cloud_placeholder);
    assert_eq!(r.hard_link_count, 1);
    for a in [
        FILE_ATTRIBUTE_OFFLINE,
        FILE_ATTRIBUTE_RECALL_ON_OPEN,
        FILE_ATTRIBUTE_RECALL_ON_DATA_ACCESS,
    ] {
        let c = FileRecord::new(2, 0, "y".to_string(), String::new(), false, 0, None, None, a);
        assert!(c.is_cloud_placeholder);
        assert!(!c.is_reparse_point);
    }
    let linked = r.copy().with_hard_links(3);
    assert_eq!(linked.hard_link_count, 3);
    assert_eq!(linked.name, "x");
}

#[test]
fn latest_of_timestamps() {
    let a = Some(Timestamp { unix_nanos: 5 });
    let b = Some(Timestamp { unix_nanos: 9 });
    assert_eq!(latest(a, b), b);
    assert_eq!(latest(b, a), b);
    assert_eq!(latest(a, None), a);
    assert_eq!(latest(None, b), b);
    assert_eq!(latest(None, None), None);
}

#[test]
fn now_is_after_2020() {
    let now = now_timestamp().expect("the clock reads after 1970");
    assert!(now.unix_nanos > 1_577_836_800_000_000_000);
}
