//! How a file record is written to the files table and read back from it:
//! paths, size and hash as they are, times as RFC 3339 text.
use vstd::prelude::*;

use crate::file_info::{clone_hash, file_model, hash_view, FileInfo, FileInfoModel, Timestamp};
use crate::tidy_rules::perished::{datetime_in_range, max_datetime_secs, min_datetime_secs};

verus! {

/// A row of the files table, each column as it is stored.
#[derive(Debug)]
pub struct FileRow {
    pub pretty_path: String,
    pub path: String,
    pub size: u64,
    pub hash: Option<String>,
    pub last_modified: String,
    pub last_accessed: String,
}

/// The instant an RFC 3339 text denotes, as the seconds since the UNIX epoch
/// and the nanoseconds after them (`DateTime::parse_from_rfc3339`, then
/// `timestamp` and `timestamp_subsec_nanos`); `None` when the text does not
/// parse.
pub uninterp spec fn rfc3339_instant(text: Seq<char>) -> Option<(i64, u32)>;

/// The RFC 3339 text of an instant (`DateTime::<Utc>::to_rfc3339`).
pub uninterp spec fn rfc3339_text(secs: i64, nanos: u32) -> Seq<char>;

/// `chrono::DateTime::parse_from_rfc3339`. The contract claims that the
/// answer is the one named [`rfc3339_instant`], a function of the text
/// alone, and that a parsed instant lies in the range of `DateTime` with
/// fewer than two seconds of nanoseconds (more than one only within a leap
/// second).
#[verifier::external_body]
fn parse_rfc3339(text: &str) -> (res: Option<(i64, u32)>)
    ensures
        res == rfc3339_instant(text@),
        res matches Some(p) ==> min_datetime_secs() <= p.0 <= max_datetime_secs() && p.1
            < 2_000_000_000,
{
    match chrono::DateTime::parse_from_rfc3339(text) {
        Ok(d) => Some((d.timestamp(), d.timestamp_subsec_nanos())),
        Err(_) => None,
    }
}

/// The instant lies in the years 0 to 9999, which RFC 3339 writes with four
/// digits.
pub open spec fn in_four_digit_years(t: Timestamp) -> bool {
    -62_167_219_200 <= t.secs <= 253_402_300_799
}

/// `chrono::DateTime::<Utc>::from_timestamp` followed by `to_rfc3339`. The
/// contract claims that the text is the one named [`rfc3339_text`], a
/// function of the instant alone, and that for an instant in the years 0 to
/// 9999 `parse_from_rfc3339` reads that text back as the same seconds and
/// nanoseconds (the text holds the year in four digits, the time in UTC and
/// every non-zero digit of the nanoseconds); the instant is required to be
/// one that a `DateTime<Utc>` holds.
#[verifier::external_body]
fn format_rfc3339(t: Timestamp) -> (res: String)
    requires
        datetime_in_range(t),
    ensures
        res@ == rfc3339_text(t.secs, t.nanos),
        in_four_digit_years(t) ==> rfc3339_instant(res@) == Some((t.secs, t.nanos)),
{
    chrono::DateTime::<chrono::Utc>::from_timestamp(t.secs, t.nanos).unwrap().to_rfc3339()
}

/// A parsed instant as a `SystemTime` holds it: nanoseconds beyond a second
/// (a leap second) carry into the seconds.
pub open spec fn instant_of(p: (i64, u32)) -> Timestamp {
    Timestamp { secs: (p.0 + p.1 / 1_000_000_000) as i64, nanos: (p.1 % 1_000_000_000) as u32 }
}

/// A row can be read: its last modification parses.
pub open spec fn row_readable(row: FileRow) -> bool {
    rfc3339_instant(row.last_modified@) is Some
}

/// The record a row stands for: its columns, the last modification read
/// from its text, and the last access read from its text or, when that does
/// not parse, the UNIX epoch; no tidy score.
pub open spec fn record_of_row(row: FileRow) -> FileInfoModel {
    FileInfoModel {
        pretty_path: row.pretty_path@,
        path: row.path@,
        size: row.size,
        hash: hash_view(row.hash),
        last_modified: instant_of(rfc3339_instant(row.last_modified@)->0),
        last_accessed: match rfc3339_instant(row.last_accessed@) {
            Some(p) => instant_of(p),
            None => Timestamp { secs: 0, nanos: 0 },
        },
        tidy_score: None,
    }
}

fn read_instant(text: &str) -> (res: Option<Timestamp>)
    ensures
        match rfc3339_instant(text@) {
            Some(p) => res == Some(instant_of(p)),
            None => res is None,
        },
{
    match parse_rfc3339(text) {
        Some((secs, nanos)) => {
            let carry: i64 = if nanos >= 1_000_000_000 {
                1
            } else {
                0
            };
            let rest: u32 = if nanos >= 1_000_000_000 {
                nanos - 1_000_000_000
            } else {
                nanos
            };
            Some(Timestamp { secs: secs + carry, nanos: rest })
        },
        None => None,
    }
}

/// The record a readable row stands for, as [`record_of_row`] states.
pub fn file_info_from_row(row: FileRow) -> (res: FileInfo)
    requires
        row_readable(row),
    ensures
        file_model(res) == record_of_row(row),
{
    let last_modified = match read_instant(row.last_modified.as_str()) {
        Some(t) => t,
        None => Timestamp::unix_epoch(),
    };
    let last_accessed = match read_instant(row.last_accessed.as_str()) {
        Some(t) => t,
        None => Timestamp::unix_epoch(),
    };
    FileInfo {
        pretty_path: row.pretty_path,
        path: row.path,
        size: row.size,
        hash: row.hash,
        last_modified,
        last_accessed,
        tidy_score: None,
    }
}

/// The record a row stands for, or `None` exactly when the row cannot be
/// read.
pub fn file_info_from_row_checked(row: FileRow) -> (res: Option<FileInfo>)
    ensures
        match res {
            Some(f) => row_readable(row) && file_model(f) == record_of_row(row),
            None => !row_readable(row),
        },
{
    match read_instant(row.last_modified.as_str()) {
        Some(_) => Some(file_info_from_row(row)),
        None => None,
    }
}

/// A record can be written: both of its times are instants a
/// `DateTime<Utc>` holds.
pub open spec fn row_writable(f: FileInfoModel) -> bool {
    datetime_in_range(f.last_modified) && datetime_in_range(f.last_accessed)
}

/// Whether a record can be written ([`row_writable`]).
pub fn row_writable_exec(f: &FileInfo) -> (res: bool)
    ensures
        res == row_writable(file_model(*f)),
{
    let m = f.last_modified;
    let a = f.last_accessed;
    m.nanos < 1_000_000_000 && -8_334_601_315_200 <= m.secs && m.secs <= 8_210_266_876_799
        && a.nanos < 1_000_000_000 && -8_334_601_315_200 <= a.secs && a.secs
        <= 8_210_266_876_799
}

/// The row written for a record: its paths, size and hash, and both times
/// as RFC 3339 text. When both times lie in the years 0 to 9999, the row
/// reads back as the record itself, without its tidy score, which the
/// table does not hold.
pub fn row_of_file_info(f: &FileInfo) -> (res: FileRow)
    requires
        row_writable(file_model(*f)),
    ensures
        res.pretty_path@ == f.pretty_path@,
        res.path@ == f.path@,
        res.size == f.size,
        hash_view(res.hash) == hash_view(f.hash),
        res.last_modified@ == rfc3339_text(f.last_modified.secs, f.last_modified.nanos),
        res.last_accessed@ == rfc3339_text(f.last_accessed.secs, f.last_accessed.nanos),
        in_four_digit_years(f.last_modified) && in_four_digit_years(f.last_accessed) ==> row_readable(
            res,
        ) && record_of_row(res) == (FileInfoModel { tidy_score: None, ..file_model(*f) }),
{
    FileRow {
        pretty_path: f.pretty_path.clone(),
        path: f.path.clone(),
        size: f.size,
        hash: clone_hash(&f.hash),
        last_modified: format_rfc3339(f.last_modified),
        last_accessed: format_rfc3339(f.last_accessed),
    }
}

} // verus!
