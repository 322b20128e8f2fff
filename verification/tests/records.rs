use tidybee_agent::file_info::{FileInfo, Timestamp};
use tidybee_agent::my_files::records::{
    file_info_from_row, file_info_from_row_checked, row_of_file_info, row_writable_exec, FileRow,
};

fn row(modified: &str, accessed: &str) -> FileRow {
    FileRow {
        pretty_path: "f".to_string(),
        path: "/d/f".to_string(),
        size: 12,
        hash: Some("99".to_string()),
        last_modified: modified.to_string(),
        last_accessed: accessed.to_string(),
    }
}

#[test]
fn rows_read_rfc3339_times() {
    let f = file_info_from_row(row("1970-01-01T00:01:40+00:00", "1970-01-01T01:00:00.5+01:00"));
    assert_eq!(f.path, "/d/f");
    assert_eq!(f.size, 12);
    assert_eq!(f.hash.as_deref(), Some("99"));
    assert_eq!(f.last_modified, Timestamp { secs: 100, nanos: 0 });
    assert_eq!(f.last_accessed, Timestamp { secs: 0, nanos: 500_000_000 });
    assert!(f.tidy_score.is_none());
}

#[test]
fn unreadable_access_time_falls_back_to_epoch() {
    let f = file_info_from_row(row("2001-02-03T04:05:06Z", "yesterday"));
    assert_eq!(f.last_accessed, Timestamp { secs: 0, nanos: 0 });
    assert!(file_info_from_row_checked(row("not a date", "1970-01-01T00:00:00Z")).is_none());
}

#[test]
fn leap_second_carries_into_the_seconds() {
    let f = file_info_from_row(row("2016-12-31T23:59:60.25Z", "2016-12-31T23:59:59Z"));
    assert_eq!(f.last_modified, Timestamp { secs: 1_483_228_800, nanos: 250_000_000 });
}

#[test]
fn records_write_and_read_back() {
    let mut f = FileInfo::default();
    f.path = "/x".to_string();
    f.pretty_path = "x".to_string();
    f.size = 3;
    f.last_modified = Timestamp { secs: 1_700_000_000, nanos: 123 };
    f.last_accessed = Timestamp { secs: -5, nanos: 0 };
    assert!(row_writable_exec(&f));
    let r = row_of_file_info(&f);
    assert_eq!(r.last_accessed, "1969-12-31T23:59:55+00:00");
    let back = file_info_from_row(r);
    assert_eq!(back.last_modified, f.last_modified);
    assert_eq!(back.last_accessed, f.last_accessed);
    assert!(back.hash.is_none());
    f.last_accessed = Timestamp { secs: i64::MAX, nanos: 0 };
    assert!(!row_writable_exec(&f));
}
