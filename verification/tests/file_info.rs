use tidybee_agent::file_info::{
    create_file_info, fix_canonicalize_path, get_file_signature, timestamp_from_epoch_offset, FileInfo, Timestamp,
};

#[test]
fn test_fix_canonicalize_path_unix() {
    let path = "tests/assets/test_folder";
    let canonicalized = fix_canonicalize_path(path);
    assert_eq!(canonicalized, String::from(path));
}

#[test]
fn test_fix_canonicalize_path_windows() {
    let path = r"C:\tests\assets\test_folder";
    let canonicalized = tidybee_agent::file_info::windows::fix_canonicalize_path(path);
    assert_eq!(canonicalized, String::from(path));
}

#[test]
fn windows_verbatim_prefix_is_dropped() {
    let fixed = tidybee_agent::file_info::windows::fix_canonicalize_path(r"\\?\C:\tests\x");
    assert_eq!(fixed, r"C:\tests\x");
}

#[test]
fn signature_is_xxh3_of_contents() {
    let contents = b"hello".to_vec();
    assert_eq!(get_file_signature(&contents), 241804000618833338782870102822322583576u128);
    assert_ne!(get_file_signature(&contents), get_file_signature(&b"hellp".to_vec()));
}

#[test]
fn created_record_holds_decimal_hash() {
    let contents = b"hello".to_vec();
    let t = Timestamp { secs: 100, nanos: 5 };
    let info = create_file_info("/a/b", 12, t, t, &contents);
    assert_eq!(info.path, "/a/b");
    assert_eq!(info.pretty_path, "/a/b");
    assert_eq!(info.size, 12);
    assert_eq!(info.hash.as_deref(), Some("241804000618833338782870102822322583576"));
    assert!(info.tidy_score.is_none());
}

#[test]
fn default_record_is_empty() {
    let f = FileInfo::default();
    assert_eq!(f.size, 0);
    assert!(f.hash.is_none());
    assert_eq!(f.last_modified, Timestamp { secs: 0, nanos: 0 });
}

#[test]
fn offsets_from_the_epoch_become_instants() {
    assert_eq!(timestamp_from_epoch_offset(false, 5, 7), Timestamp { secs: 5, nanos: 7 });
    assert_eq!(timestamp_from_epoch_offset(true, 5, 0), Timestamp { secs: -5, nanos: 0 });
    assert_eq!(timestamp_from_epoch_offset(true, 5, 250_000_000), Timestamp { secs: -6, nanos: 750_000_000 });
}
