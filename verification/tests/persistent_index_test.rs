use sweepie_core::model::file_record::FileRecord;
use sweepie_core::scanner::index::ScanIndex;
use sweepie_core::scanner::persistent_index::{
    checkpoint_from_query, get_index_path_for_volume, index_file_name, usn_volume_root,
    IncrementalIndexError, PersistentIndex, UsnCheckpoint, UsnDeltaRecord, UsnQueryOutcome,
};

fn record(id: u64, parent: u64, name: &str, path: &str, size: u64) -> FileRecord {
    FileRecord::new(
        id,
        parent,
        name.to_string(),
        path.to_string(),
        false,
        size,
        None,
        None,
        0,
    )
}

#[test]
fn test_journal_wrap_detection() {
    let scan_index = ScanIndex::new("/test/root".to_string());
    let persistent = PersistentIndex::new("C:", 9999, 500, &scan_index);

    // Case 1: Journal wrapped (saved 500 < lowest 1000)
    let wrapped_checkpoint = UsnCheckpoint {
        journal_id: 9999,
        lowest_usn: 1000,
        next_usn: 5000,
    };
    let err = persistent.verify_journal_continuity(&wrapped_checkpoint);
    assert!(matches!(
        err,
        Err(IncrementalIndexError::JournalWrapped { .. })
    ));

    // Case 2: Journal ID mismatch (journal deleted and recreated)
    let mismatch_checkpoint = UsnCheckpoint {
        journal_id: 8888,
        lowest_usn: 100,
        next_usn: 5000,
    };
    let err = persistent.verify_journal_continuity(&mismatch_checkpoint);
    assert!(matches!(
        err,
        Err(IncrementalIndexError::JournalIdMismatch { .. })
    ));

    // Case 3: Valid continuous journal
    let valid_checkpoint = UsnCheckpoint {
        journal_id: 9999,
        lowest_usn: 200,
        next_usn: 5000,
    };
    assert!(persistent
        .verify_journal_continuity(&valid_checkpoint)
        .is_ok());
}

#[test]
fn test_apply_usn_deltas_in_memory() {
    let mut scan_index = ScanIndex::new("/root".to_string());
    scan_index.insert_record(FileRecord::new(
        1,
        0,
        "old.txt".to_string(),
        "/root/old.txt".to_string(),
        false,
        100,
        None,
        None,
        0,
    ));

    let mut persistent = PersistentIndex::new("C:", 1, 100, &scan_index);

    let deltas = vec![
        // 1. Create new record
        UsnDeltaRecord::Created(FileRecord::new(
            2,
            0,
            "created.txt".to_string(),
            "/root/created.txt".to_string(),
            false,
            500,
            None,
            None,
            0,
        )),
        // 2. Rename old.txt -> renamed.txt
        UsnDeltaRecord::Renamed {
            id: 1,
            new_parent_id: 0,
            new_name: "renamed.txt".to_string(),
        },
        // 3. Modify size of renamed.txt
        UsnDeltaRecord::Modified {
            id: 1,
            new_size: 999,
        },
    ];

    persistent.apply_deltas(&mut scan_index, &deltas, 250);

    assert_eq!(scan_index.records.len(), 2);
    assert_eq!(scan_index.get_record(1).unwrap().name, "renamed.txt");
    assert_eq!(scan_index.get_record(1).unwrap().size_bytes, 999);
    assert_eq!(scan_index.get_record(2).unwrap().name, "created.txt");
    assert_eq!(scan_index.get_record(2).unwrap().size_bytes, 500);
    assert_eq!(persistent.metadata.last_usn, 250);

    // Now test deletion delta
    let delete_deltas = vec![UsnDeltaRecord::Deleted { id: 1 }];
    persistent.apply_deltas(&mut scan_index, &delete_deltas, 300);

    assert_eq!(scan_index.records.len(), 1);
    assert!(scan_index.get_record(1).is_none());
    assert_eq!(scan_index.get_record(2).unwrap().name, "created.txt");
}

#[test]
fn persistent_index_keeps_metadata_and_records() {
    let mut scan_index = ScanIndex::new("/test/root".to_string());
    scan_index.insert_record(record(10, 0, "file.txt", "/test/root/file.txt", 2048));
    let persistent = PersistentIndex::new("C:", 12345, 1000, &scan_index);
    assert_eq!(persistent.metadata.volume_id, "C:");
    assert_eq!(persistent.metadata.usn_journal_id, 12345);
    assert_eq!(persistent.metadata.last_usn, 1000);
    assert_eq!(persistent.metadata.total_records, 1);
    assert_eq!(persistent.records.len(), 1);
    assert_eq!(persistent.records[0].name, "file.txt");
    assert_eq!(persistent.records[0].size_bytes, 2048);
}

#[test]
fn rebuilt_index_has_the_saved_records() {
    let mut scan_index = ScanIndex::new("/r".to_string());
    scan_index.insert_record(record(1, 0, "a.txt", "/r/a.txt", 1));
    scan_index.insert_record(record(2, 0, "B.txt", "/r/B.txt", 2));
    scan_index.insert_record(record(3, 2, "c.txt", "/r/B.txt/c.txt", 3));
    let persistent = PersistentIndex::new("D:", 7, 42, &scan_index);
    let rebuilt = persistent.to_scan_index("/r".to_string());
    assert_eq!(rebuilt.records, scan_index.records);
    assert_eq!(rebuilt.total_files_scanned, 3);
    assert!(rebuilt.has_child_with_name(0, "b.TXT"));
    assert_eq!(rebuilt.get_child_by_name(2, "C.TXT").unwrap().id, 3);
}

#[test]
fn journal_continuity_boundaries() {
    let scan_index = ScanIndex::new("/x".to_string());
    let persistent = PersistentIndex::new("C:", 5, 1000, &scan_index);
    // The saved cursor equal to the lowest valid USN is still followable.
    let at_lowest = UsnCheckpoint { journal_id: 5, lowest_usn: 1000, next_usn: 2000 };
    assert!(persistent.verify_journal_continuity(&at_lowest).is_ok());
    let just_past = UsnCheckpoint { journal_id: 5, lowest_usn: 1001, next_usn: 2000 };
    match persistent.verify_journal_continuity(&just_past) {
        Err(IncrementalIndexError::JournalWrapped { saved_usn, lowest_usn }) => {
            assert_eq!(saved_usn, 1000);
            assert_eq!(lowest_usn, 1001);
        }
        other => panic!("unexpected {:?}", other),
    }
    // A different journal wins over a wrapped cursor.
    let both = UsnCheckpoint { journal_id: 6, lowest_usn: 5000, next_usn: 6000 };
    match persistent.verify_journal_continuity(&both) {
        Err(IncrementalIndexError::JournalIdMismatch { saved_id, current_id }) => {
            assert_eq!(saved_id, 5);
            assert_eq!(current_id, 6);
        }
        other => panic!("unexpected {:?}", other),
    }
}

#[test]
fn index_file_names_replace_non_alphanumerics() {
    assert_eq!(index_file_name("C:"), "index_C_.json");
    assert_eq!(index_file_name("\\\\.\\D:"), "index_____D_.json");
    assert_eq!(index_file_name("vol1"), "index_vol1.json");
    assert_eq!(index_file_name(""), "index_.json");
    let p = get_index_path_for_volume("C:", "/var/idx");
    assert_eq!(p, "/var/idx/index_C_.json");
}

#[test]
fn usn_volume_root_forms() {
    assert_eq!(usn_volume_root("C:"), "\\\\.\\C:");
    assert_eq!(usn_volume_root("d:\\dev"), "\\\\.\\d:");
    assert_eq!(usn_volume_root("\\\\.\\E:"), "\\\\.\\E:");
    assert_eq!(usn_volume_root("123"), "\\\\.\\C:");
    assert_eq!(usn_volume_root("/mnt/x"), "\\\\.\\m:");
}

#[test]
fn deleting_unknown_and_empty_delta_lists() {
    let mut scan_index = ScanIndex::new("/root".to_string());
    scan_index.insert_record(record(1, 0, "a", "/root/a", 10));
    let mut persistent = PersistentIndex::new("C:", 1, 1, &scan_index);
    persistent.apply_deltas(&mut scan_index, &[], 2);
    assert_eq!(scan_index.records.len(), 1);
    assert_eq!(persistent.metadata.last_usn, 2);
    persistent.apply_deltas(&mut scan_index, &[UsnDeltaRecord::Deleted { id: 77 }], 3);
    assert_eq!(scan_index.records.len(), 1);
    assert_eq!(scan_index.total_files_scanned, 1);
    assert_eq!(persistent.metadata.total_records, 1);
}

#[test]
fn journal_query_outcomes() {
    match checkpoint_from_query(UsnQueryOutcome::Unsupported) {
        Err(IncrementalIndexError::UnsupportedPlatform(m)) => {
            assert_eq!(m, "USN Change Journal is an NTFS/Windows feature")
        }
        other => panic!("unexpected {:?}", other),
    }
    match checkpoint_from_query(UsnQueryOutcome::OpenFailed("Access is denied.".to_string())) {
        Err(IncrementalIndexError::JournalError(m)) => assert_eq!(m, "Failed to open volume: Access is denied."),
        other => panic!("unexpected {:?}", other),
    }
    match checkpoint_from_query(UsnQueryOutcome::QueryFailed) {
        Err(IncrementalIndexError::JournalError(m)) => assert_eq!(m, "FSCTL_QUERY_USN_JOURNAL failed"),
        other => panic!("unexpected {:?}", other),
    }
    let c = checkpoint_from_query(UsnQueryOutcome::Journal { journal_id: 7, lowest_usn: 1, next_usn: 9 }).unwrap();
    assert_eq!((c.journal_id, c.lowest_usn, c.next_usn), (7, 1, 9));
}

#[test]
fn delta_batches_compose() {
    let deltas = || {
        vec![
            UsnDeltaRecord::Created(record(2, 0, "n.txt", "/root/n.txt", 5)),
            UsnDeltaRecord::Renamed { id: 1, new_parent_id: 2, new_name: "m.txt".to_string() },
            UsnDeltaRecord::Modified { id: 2, new_size: 50 },
            UsnDeltaRecord::Deleted { id: 3 },
        ]
    };
    let base = || {
        let mut index = ScanIndex::new("/root".to_string());
        index.insert_record(record(1, 0, "a.txt", "/root/a.txt", 1));
        index.insert_record(record(3, 0, "c.txt", "/root/c.txt", 3));
        index
    };
    let mut once = base();
    let mut p1 = PersistentIndex::new("C:", 1, 1, &once);
    p1.apply_deltas(&mut once, &deltas(), 10);
    let mut twice = base();
    let mut p2 = PersistentIndex::new("C:", 1, 1, &twice);
    let all = deltas();
    p2.apply_deltas(&mut twice, &all[..1], 5);
    p2.apply_deltas(&mut twice, &all[1..], 10);
    assert_eq!(once.records, twice.records);
    assert_eq!(once.children_by_parent, twice.children_by_parent);
    assert_eq!(once.total_files_scanned, twice.total_files_scanned);
    assert_eq!(twice.get_record(1).unwrap().parent_id, 2);
    assert!(twice.has_child_with_name(2, "M.TXT"));
    assert!(twice.get_record(3).is_none());
}
