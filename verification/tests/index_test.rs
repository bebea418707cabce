use sweepie_core::model::file_record::{
    FileRecord, Timestamp, FILE_ATTRIBUTE_DIRECTORY, FILE_ATTRIBUTE_REPARSE_POINT,
};
use sweepie_core::scanner::dir_walk::{DirWalkIngest, DirWalkScanner, WalkEntry};
use sweepie_core::scanner::index::{retain_other_than, ScanIndex};
use sweepie_core::scanner::ntfs_mft::{MftAttribute, MftFile, MftStandardInfo, NtfsMftScanner};
use sweepie_core::scanner::ScanError;

fn rec(id: u64, parent: u64, name: &str, is_dir: bool, size: u64) -> FileRecord {
    FileRecord::new(
        id,
        parent,
        name.to_string(),
        String::new(),
        is_dir,
        size,
        None,
        None,
        if is_dir { FILE_ATTRIBUTE_DIRECTORY } else { 0 },
    )
}

#[test]
fn insert_registers_children_and_names() {
    let mut index = ScanIndex::new("/root".to_string());
    index.insert_record(rec(1, 0, "Docs", true, 0));
    index.insert_record(rec(2, 1, "Report.PDF", false, 10));
    index.insert_record(rec(3, 1, "notes.txt", false, 20));
    assert_eq!(index.total_files_scanned, 3);
    assert_eq!(index.children_by_parent.get(&1).unwrap(), &vec![2, 3]);
    assert!(index.has_child_with_name(1, "report.pdf"));
    assert!(index.has_child_with_name(1, "NOTES.TXT"));
    assert!(!index.has_child_with_name(1, "missing"));
    assert!(!index.has_child_with_name(99, "notes.txt"));
    assert_eq!(index.get_child_by_name(1, "REPORT.pdf").unwrap().id, 2);
    assert!(index.get_child_by_name(2, "x").is_none());
    assert!(index.has_child_with_extension(1, "pdf"));
    assert!(index.has_child_with_extension(1, "TXT"));
    assert!(!index.has_child_with_extension(1, "doc"));
    assert!(!index.has_child_with_extension(7, "pdf"));
}

#[test]
fn remove_and_reinsert() {
    let mut index = ScanIndex::new("/root".to_string());
    index.insert_record(rec(1, 0, "a", true, 0));
    index.insert_record(rec(2, 1, "b.txt", false, 5));
    let removed = index.remove_record(2).unwrap();
    assert_eq!(removed.name, "b.txt");
    assert!(index.get_record(2).is_none());
    assert!(!index.has_child_with_name(1, "b.txt"));
    assert_eq!(index.children_by_parent.get(&1).unwrap().len(), 0);
    assert_eq!(index.total_files_scanned, 1);
    assert!(index.remove_record(2).is_none());
    assert_eq!(index.total_files_scanned, 1);
    index.insert_record(removed);
    assert!(index.has_child_with_name(1, "B.TXT"));
}

#[test]
fn update_moves_and_renames() {
    let mut index = ScanIndex::new("/root".to_string());
    index.insert_record(rec(1, 0, "src", true, 0));
    index.insert_record(rec(2, 0, "dst", true, 0));
    index.insert_record(rec(3, 1, "file.rs", false, 7));
    // Size only.
    index.update_record(3, None, None, Some(70));
    assert_eq!(index.get_record(3).unwrap().size_bytes, 70);
    assert!(index.has_child_with_name(1, "file.rs"));
    // Same name and parent: nothing moves.
    index.update_record(3, Some("file.rs".to_string()), Some(1), None);
    assert_eq!(index.children_by_parent.get(&1).unwrap(), &vec![3]);
    // Rename in place.
    index.update_record(3, Some("lib.rs".to_string()), None, None);
    assert!(!index.has_child_with_name(1, "file.rs"));
    assert!(index.has_child_with_name(1, "LIB.RS"));
    assert_eq!(index.children_by_parent.get(&1).unwrap(), &vec![3]);
    // Move to another parent.
    index.update_record(3, None, Some(2), None);
    assert_eq!(index.get_record(3).unwrap().parent_id, 2);
    assert_eq!(index.children_by_parent.get(&1).unwrap().len(), 0);
    assert_eq!(index.children_by_parent.get(&2).unwrap(), &vec![3]);
    assert!(index.has_child_with_name(2, "lib.rs"));
    assert!(!index.has_child_with_name(1, "lib.rs"));
    // Unknown ids are ignored.
    index.update_record(42, Some("x".to_string()), Some(1), Some(1));
    assert!(index.get_record(42).is_none());
    assert_eq!(index.records.len(), 3);
}

#[test]
fn resolve_path_walks_parents() {
    let mut index = ScanIndex::new("/vol".to_string());
    index.insert_record(rec(5, 5, ".", true, 0));
    index.insert_record(rec(30, 5, "Users", true, 0));
    index.insert_record(rec(31, 30, "me", true, 0));
    index.insert_record(rec(32, 31, "file.txt", false, 1));
    assert_eq!(index.resolve_path(32), "/vol/Users/me/file.txt");
    assert_eq!(
        index.lazy_path_names(32),
        vec!["file.txt".to_string(), "me".to_string(), "Users".to_string()]
    );
    let stored = FileRecord::new(
        40,
        31,
        "x".to_string(),
        "/elsewhere/x".to_string(),
        false,
        1,
        None,
        None,
        0,
    );
    index.insert_record(stored);
    assert_eq!(index.resolve_path(40), "/elsewhere/x");
    // An unknown id resolves to the root itself.
    assert_eq!(index.resolve_path(999), "/vol");
}

#[test]
fn subtree_stats_skip_reparse_points() {
    let mut index = ScanIndex::new("/r".to_string());
    index.insert_record(rec(1, 0, "top", true, 0));
    index.insert_record(FileRecord::new(
        2,
        1,
        "a".to_string(),
        String::new(),
        false,
        100,
        Some(Timestamp { unix_nanos: 10 }),
        None,
        0,
    ));
    index.insert_record(
        FileRecord::new(3, 1, "b".to_string(), String::new(), false, 50, None, None, 0)
            .with_hard_links(2),
    );
    index.insert_record(FileRecord::new(
        4,
        1,
        "link".to_string(),
        String::new(),
        true,
        0,
        Some(Timestamp { unix_nanos: 99 }),
        None,
        FILE_ATTRIBUTE_DIRECTORY | FILE_ATTRIBUTE_REPARSE_POINT,
    ));
    index.insert_record(rec(5, 4, "hidden", false, 1000));
    index.insert_record(FileRecord::new(
        6,
        1,
        "sub".to_string(),
        String::new(),
        true,
        0,
        Some(Timestamp { unix_nanos: 20 }),
        None,
        FILE_ATTRIBUTE_DIRECTORY,
    ));
    index.insert_record(rec(7, 6, "c", false, 25));
    let stats = index.calculate_subtree_stats(1);
    assert_eq!(stats.total_bytes, 175);
    assert_eq!(stats.total_files, 3);
    assert_eq!(stats.hardlink_shared_bytes, 50);
    assert_eq!(stats.latest_modified, Some(Timestamp { unix_nanos: 20 }));
    // The reparse point itself is measured when it is the root.
    let inner = index.calculate_subtree_stats(4);
    assert_eq!(inner.total_bytes, 1000);
    assert_eq!(inner.total_files, 1);
    let unknown = index.calculate_subtree_stats(77);
    assert_eq!(unknown.total_bytes, 0);
    assert_eq!(unknown.total_files, 0);
}

#[test]
fn totals_under_a_root_that_is_its_own_parent() {
    let mut index = ScanIndex::new("/w".to_string());
    index.insert_record(rec(0, 0, "w", true, 0));
    index.insert_record(rec(1, 0, "a.txt", false, 10));
    index.insert_record(rec(2, 0, "d", true, 0));
    index.insert_record(rec(3, 2, "b.txt", false, 32));
    let stats = index.calculate_subtree_stats(0);
    assert_eq!(stats.total_bytes, 42);
    assert_eq!(stats.total_files, 2);
}

#[test]
fn retain_removes_every_occurrence() {
    assert_eq!(retain_other_than(&vec![1, 2, 1, 3], 1), vec![2, 3]);
    assert_eq!(retain_other_than(&vec![], 1), Vec::<u64>::new());
}

#[test]
fn dir_walk_assigns_ids_and_parents() {
    let _scanner = DirWalkScanner::new();
    let _default = DirWalkScanner::default();
    let mut w = DirWalkIngest::start("/data".to_string(), "data".to_string(), None, None);
    let root = w.index.get_record(0).unwrap();
    assert!(root.is_dir);
    assert_eq!(root.attributes, FILE_ATTRIBUTE_DIRECTORY);
    let a = w.add_entry(WalkEntry {
        path: "/data/a".to_string(),
        parent_path: Some("/data".to_string()),
        file_name: "a".to_string(),
        is_dir: true,
        is_symlink: false,
        len: Some(4096),
        modified_at: None,
        created_at: None,
        hard_link_count: None,
    });
    let f = w.add_entry(WalkEntry {
        path: "/data/a/f.bin".to_string(),
        parent_path: Some("/data/a".to_string()),
        file_name: "f.bin".to_string(),
        is_dir: false,
        is_symlink: true,
        len: Some(77),
        modified_at: Some(Timestamp { unix_nanos: 3 }),
        created_at: None,
        hard_link_count: Some(2),
    });
    let orphan = w.add_entry(WalkEntry {
        path: "/other/g".to_string(),
        parent_path: Some("/other".to_string()),
        file_name: "g".to_string(),
        is_dir: false,
        is_symlink: false,
        len: None,
        modified_at: None,
        created_at: None,
        hard_link_count: None,
    });
    assert_eq!((a, f, orphan), (1, 2, 3));
    assert_eq!(w.next_id, 4);
    let index = w.finish(1234);
    assert_eq!(index.scan_duration_nanos, 1234);
    assert_eq!(index.total_files_scanned, 4);
    let ra = index.get_record(1).unwrap();
    assert_eq!(ra.parent_id, 0);
    assert_eq!(ra.size_bytes, 0);
    assert_eq!(ra.attributes, FILE_ATTRIBUTE_DIRECTORY);
    let rf = index.get_record(2).unwrap();
    assert_eq!(rf.parent_id, 1);
    assert_eq!(rf.size_bytes, 77);
    assert_eq!(rf.attributes, FILE_ATTRIBUTE_REPARSE_POINT);
    assert!(rf.is_reparse_point);
    assert_eq!(rf.hard_link_count, 2);
    assert_eq!(rf.path, "/data/a/f.bin");
    let rg = index.get_record(3).unwrap();
    assert_eq!(rg.parent_id, 0);
    assert_eq!(rg.size_bytes, 0);
    assert_eq!(rg.hard_link_count, 1);
}

#[test]
fn mft_volume_paths() {
    assert_eq!(NtfsMftScanner::format_volume_path("C:"), "\\\\.\\C:");
    assert_eq!(NtfsMftScanner::format_volume_path("d:\\dev\\x"), "\\\\.\\d:");
    assert_eq!(NtfsMftScanner::format_volume_path("C"), "C");
    assert_eq!(NtfsMftScanner::format_volume_path("/mnt/c"), "/mnt/c");
    assert_eq!(NtfsMftScanner::format_volume_path("é:"), "é:");
    assert_eq!(NtfsMftScanner::format_volume_path(""), "");
}

#[test]
fn mft_files_fold_their_attributes() {
    let scanner = NtfsMftScanner::default();
    let mut index = ScanIndex::new("C:".to_string());
    let file = MftFile {
        number: 40,
        best_name: Some(("big.iso".to_string(), 5)),
        is_dir: false,
        name_attributes: 0x20,
        attributes: vec![
            MftAttribute::Data { unnamed: false, value_size: Some(9) },
            MftAttribute::StandardInformation(Some(MftStandardInfo {
                created_at: Some(Timestamp { unix_nanos: 1 }),
                modified_at: Some(Timestamp { unix_nanos: 2 }),
                file_attributes: 0x400,
            })),
            MftAttribute::Data { unnamed: true, value_size: Some(4096) },
            MftAttribute::Data { unnamed: true, value_size: None },
            MftAttribute::StandardInformation(None),
            MftAttribute::Other,
        ],
    };
    scanner.add_file(&mut index, file);
    let r = index.get_record(40).unwrap();
    assert_eq!(r.parent_id, 5);
    assert_eq!(r.name, "big.iso");
    assert_eq!(r.path, "");
    assert_eq!(r.size_bytes, 4096);
    assert_eq!(r.attributes, 0x400);
    assert!(r.is_reparse_point);
    assert_eq!(r.created_at, Some(Timestamp { unix_nanos: 1 }));
    assert_eq!(r.modified_at, Some(Timestamp { unix_nanos: 2 }));
    let nameless = MftFile {
        number: 41,
        best_name: None,
        is_dir: true,
        name_attributes: 0,
        attributes: vec![],
    };
    scanner.add_file(&mut index, nameless);
    assert!(index.get_record(41).is_none());
    assert_eq!(index.total_files_scanned, 1);
    let s = NtfsMftScanner::summarize(0x10, &vec![]);
    assert_eq!(s.attributes, 0x10);
    assert_eq!(s.size_bytes, 0);
    assert!(s.created_at.is_none());
}

#[test]
fn scan_error_variants() {
    let e = ScanError::NotFound("Z:".to_string());
    assert!(matches!(e, ScanError::NotFound(ref s) if s == "Z:"));
    assert!(matches!(ScanError::ElevationRequired, ScanError::ElevationRequired));
}

#[test]
fn insert_then_remove_gives_back_the_index() {
    let mut index = ScanIndex::new("/root".to_string());
    index.insert_record(rec(1, 0, "a", true, 0));
    index.insert_record(rec(2, 1, "b.txt", false, 5));
    let records_before = index.records.clone();
    let children_before = index.children_by_parent.get(&1).unwrap().clone();
    let total_before = index.total_files_scanned;
    index.insert_record(rec(3, 1, "c.txt", false, 9));
    index.remove_record(3);
    assert_eq!(index.records, records_before);
    assert_eq!(index.children_by_parent.get(&1).unwrap(), &children_before);
    assert!(index.has_child_with_name(1, "b.txt"));
    assert!(!index.has_child_with_name(1, "c.txt"));
    assert_eq!(index.total_files_scanned, total_before);
}

#[test]
fn empty_update_changes_nothing() {
    let mut index = ScanIndex::new("/root".to_string());
    index.insert_record(rec(1, 0, "a", true, 0));
    index.insert_record(rec(2, 1, "b.txt", false, 5));
    let records_before = index.records.clone();
    index.update_record(2, None, None, None);
    index.update_record(9, None, None, None);
    assert_eq!(index.records, records_before);
    assert_eq!(index.children_by_parent.get(&1).unwrap(), &vec![2]);
    assert!(index.has_child_with_name(1, "B.TXT"));
}
