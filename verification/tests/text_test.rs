use sweepie_core::cleaner::CleanExecutor;
use sweepie_core::model::file_record::FileRecord;
use sweepie_core::scanner::index::ScanIndex;
use sweepie_core::scanner::persistent_index::{get_index_path_for_volume, index_file_name};
use sweepie_core::text::{
    chars_of, eq_ignore_ascii_case, push_decimal, str_contains, str_ends_with, str_eq,
    str_starts_with, string_from_chars,
};

#[test]
fn comparisons() {
    assert!(eq_ignore_ascii_case("Cargo.TOML", "cargo.toml"));
    assert!(!eq_ignore_ascii_case("Ä", "ä"));
    assert!(!eq_ignore_ascii_case("abc", "abcd"));
    assert!(str_contains("c:\\users\\me\\onedrive", "onedrive"));
    assert!(!str_contains("dropbo", "dropbox"));
    assert!(str_contains("x", ""));
    assert!(str_starts_with("\\\\.\\C:", "\\\\.\\"));
    assert!(str_ends_with("/home/Downloads", "/Downloads"));
    assert!(!str_ends_with("a", "ba"));
    assert!(str_eq("same", "same"));
    assert!(!str_eq("same", "Same"));
}

#[test]
fn chars_round_trip_and_decimals() {
    let cs = chars_of("héllo");
    assert_eq!(cs.len(), 5);
    assert_eq!(string_from_chars(&cs), "héllo");
    let mut s = String::from("n=");
    push_decimal(&mut s, 0);
    push_decimal(&mut s, 1234567890123);
    assert_eq!(s, "n=01234567890123");
    let mut big = String::new();
    push_decimal(&mut big, u128::MAX);
    assert_eq!(big, u128::MAX.to_string());
}

fn named(id: u64, parent: u64, name: &str) -> FileRecord {
    FileRecord::new(id, parent, name.to_string(), String::new(), false, 1, None, None, 0)
}

#[test]
fn names_are_compared_lowercased() {
    let mut index = ScanIndex::new("/r".to_string());
    index.insert_record(named(1, 0, "Äpfel.TXT"));
    assert!(index.has_child_with_name(0, "äPFEL.txt"));
    assert!(index.has_child_with_name(0, "ÄPFEL.TXT"));
    assert!(!index.has_child_with_name(0, "apfel.txt"));
}

#[test]
fn extensions_come_from_the_last_dot() {
    let mut index = ScanIndex::new("/r".to_string());
    index.insert_record(named(1, 10, "archive.tar.GZ"));
    index.insert_record(named(2, 11, ".gitignore"));
    index.insert_record(named(3, 12, "Makefile"));
    index.insert_record(named(4, 13, "trailing."));
    assert!(index.has_child_with_extension(10, "gz"));
    assert!(!index.has_child_with_extension(10, "tar"));
    assert!(!index.has_child_with_extension(11, "gitignore"));
    assert!(!index.has_child_with_extension(12, "Makefile"));
    assert!(index.has_child_with_extension(13, ""));
}

#[test]
fn paths_are_joined_by_the_platform_rules() {
    assert_eq!(get_index_path_for_volume("C:", "/var/idx"), "/var/idx/index_C_.json");
    assert_eq!(get_index_path_for_volume("D:", "/var/idx/"), "/var/idx/index_D_.json");
    assert_eq!(index_file_name("C:"), "index_C_.json");
}

#[test]
fn confirmations_are_trimmed() {
    assert!(CleanExecutor::is_confirmation("\t yes \n"));
    assert!(!CleanExecutor::is_confirmation("y e s"));
}
