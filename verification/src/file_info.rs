//! What the agent knows of one file: its paths, size, content hash, times
//! and tidy score, and how that record is made from what the file system
//! reports.
use vstd::prelude::*;

use crate::text::{decimal, decimal_string, from_chars, to_chars};

pub mod windows;

verus! {

/// An instant, as seconds and nanoseconds since the UNIX epoch
/// (`nanos < 1_000_000_000`; instants before the epoch have negative `secs`).
#[derive(Clone, Copy, Debug, PartialEq, Eq, Structural)]
pub struct Timestamp {
    pub secs: i64,
    pub nanos: u32,
}

impl Timestamp {
    /// The UNIX epoch, `SystemTime::UNIX_EPOCH`.
    pub fn unix_epoch() -> (res: Timestamp)
        ensures
            res.secs == 0 && res.nanos == 0,
    {
        Timestamp { secs: 0, nanos: 0 }
    }

    /// The instant as a number of nanoseconds since the UNIX epoch.
    pub open spec fn total_nanos(self) -> int {
        self.secs * 1_000_000_000 + self.nanos
    }

    /// `self` is strictly earlier than `other` (for well-formed instants).
    pub open spec fn spec_before(self, other: Timestamp) -> bool {
        self.secs < other.secs || (self.secs == other.secs && self.nanos < other.nanos)
    }

    /// Whether `self` is strictly earlier than `other`.
    pub fn before(&self, other: &Timestamp) -> (res: bool)
        ensures
            res == self.spec_before(*other),
    {
        self.secs < other.secs || (self.secs == other.secs && self.nanos < other.nanos)
    }
}

/// The instant `secs` seconds and `nanos` nanoseconds after the UNIX epoch,
/// or before it when `before` holds: how a system time, read as its
/// distance from the epoch, becomes an instant.
pub fn timestamp_from_epoch_offset(before: bool, secs: u64, nanos: u32) -> (res: Timestamp)
    requires
        secs < 0x8000_0000_0000_0000,
        nanos < 1_000_000_000,
    ensures
        res.nanos < 1_000_000_000,
        res.total_nanos() == if before {
            -(secs * 1_000_000_000 + nanos)
        } else {
            secs * 1_000_000_000 + nanos
        },
{
    if !before {
        Timestamp { secs: secs as i64, nanos }
    } else if nanos == 0 {
        Timestamp { secs: -(secs as i64), nanos: 0 }
    } else {
        Timestamp { secs: -(secs as i64) - 1, nanos: 1_000_000_000 - nanos }
    }
}

/// Whether two paths are the same path as `Path` compares them: component
/// by component, so that repeated separators and `.` components do not
/// count.
pub uninterp spec fn same_path(a: Seq<char>, b: Seq<char>) -> bool;

/// `Path::eq` on two paths. The contract claims that the answer is the one
/// named [`same_path`], a function of both texts alone, and that a text is
/// the same path as itself.
#[verifier::external_body]
pub(crate) fn paths_equal(a: &str, b: &str) -> (res: bool)
    ensures
        res == same_path(a@, b@),
        a@ == b@ ==> res,
{
    std::path::Path::new(a) == std::path::Path::new(b)
}

/// The three findings of the tidy rules for one file.
#[derive(Debug)]
pub struct TidyScore {
    pub misnamed: bool,
    pub unused: bool,
    pub duplicated: Option<Vec<FileInfo>>,
}

impl TidyScore {
    pub fn new(misnamed: bool, unused: bool, duplicated: Option<Vec<FileInfo>>) -> (res: TidyScore)
        ensures
            res.misnamed == misnamed,
            res.unused == unused,
            res.duplicated == duplicated,
    {
        TidyScore { misnamed, unused, duplicated }
    }
}

/// A file known to the agent.
#[derive(Debug)]
pub struct FileInfo {
    pub pretty_path: String,
    pub path: String,
    pub size: u64,
    pub hash: Option<String>,
    pub last_modified: Timestamp,
    pub last_accessed: Timestamp,
    pub tidy_score: Option<TidyScore>,
}

/// The mathematical value of a [`TidyScore`].
pub struct TidyScoreModel {
    pub misnamed: bool,
    pub unused: bool,
    pub duplicated: Option<Seq<FileInfoModel>>,
}

/// The mathematical value of a [`FileInfo`]: its strings as character
/// sequences.
pub struct FileInfoModel {
    pub pretty_path: Seq<char>,
    pub path: Seq<char>,
    pub size: u64,
    pub hash: Option<Seq<char>>,
    pub last_modified: Timestamp,
    pub last_accessed: Timestamp,
    pub tidy_score: Option<TidyScoreModel>,
}

/// The model of a file record.
pub open spec fn file_model(f: FileInfo) -> FileInfoModel
    decreases f, 2int,
{
    FileInfoModel {
        pretty_path: f.pretty_path@,
        path: f.path@,
        size: f.size,
        hash: hash_view(f.hash),
        last_modified: f.last_modified,
        last_accessed: f.last_accessed,
        tidy_score: match f.tidy_score {
            Some(s) => Some(score_model(s)),
            None => None,
        },
    }
}

/// The model of a tidy score.
pub open spec fn score_model(s: TidyScore) -> TidyScoreModel
    decreases s, 1int,
{
    TidyScoreModel {
        misnamed: s.misnamed,
        unused: s.unused,
        duplicated: match s.duplicated {
            Some(v) => Some(files_model(v@)),
            None => None,
        },
    }
}

/// The models of a sequence of file records.
pub open spec fn files_model(s: Seq<FileInfo>) -> Seq<FileInfoModel>
    decreases s, 0int,
{
    if s.len() == 0 {
        seq![]
    } else {
        files_model(s.drop_last()).push(file_model(s.last()))
    }
}

/// The models of a sequence of records, one for one.
pub proof fn lemma_files_model(s: Seq<FileInfo>)
    ensures
        files_model(s).len() == s.len(),
        forall|i: int| 0 <= i < s.len() ==> #[trigger] files_model(s)[i] == file_model(s[i]),
    decreases s.len(),
{
    if s.len() > 0 {
        lemma_files_model(s.drop_last());
        assert forall|i: int| 0 <= i < s.len() implies #[trigger] files_model(s)[i] == file_model(
            s[i],
        ) by {
            if i < s.len() - 1 {
                assert(s.drop_last()[i] == s[i]);
            }
        }
    }
}

/// Two sequences of records whose elements have the same models have the
/// same model.
pub proof fn lemma_files_model_ext(a: Seq<FileInfo>, b: Seq<FileInfo>)
    requires
        a.len() == b.len(),
        forall|i: int| 0 <= i < a.len() ==> file_model(#[trigger] a[i]) == file_model(b[i]),
    ensures
        files_model(a) == files_model(b),
{
    lemma_files_model(a);
    lemma_files_model(b);
    assert(files_model(a) =~= files_model(b));
}

/// The model of a concatenation is the concatenation of the models.
pub proof fn lemma_files_model_add(a: Seq<FileInfo>, b: Seq<FileInfo>)
    ensures
        files_model(a + b) == files_model(a) + files_model(b),
{
    lemma_files_model(a);
    lemma_files_model(b);
    lemma_files_model(a + b);
    assert forall|i: int| 0 <= i < (a + b).len() implies #[trigger] files_model(a + b)[i] == (
    files_model(a) + files_model(b))[i] by {
        if i < a.len() {
            assert((a + b)[i] == a[i]);
        } else {
            assert((a + b)[i] == b[i - a.len()]);
        }
    }
    assert(files_model(a + b) =~= files_model(a) + files_model(b));
}

/// The model of a sequence with one more record.
pub proof fn lemma_files_model_push(a: Seq<FileInfo>, f: FileInfo)
    ensures
        files_model(a.push(f)) == files_model(a).push(file_model(f)),
{
    assert(a.push(f).drop_last() =~= a);
}

/// A copy of an optional hash.
pub fn clone_hash(h: &Option<String>) -> (res: Option<String>)
    ensures
        hash_view(res) == hash_view(*h),
{
    match h {
        Some(s) => Some(s.clone()),
        None => None,
    }
}

/// A copy of a file record, with the same model.
pub fn clone_file(f: &FileInfo) -> (res: FileInfo)
    ensures
        file_model(res) == file_model(*f),
    decreases *f, 2int,
{
    let tidy_score = match &f.tidy_score {
        Some(s) => Some(clone_score(s)),
        None => None,
    };
    FileInfo {
        pretty_path: f.pretty_path.clone(),
        path: f.path.clone(),
        size: f.size,
        hash: clone_hash(&f.hash),
        last_modified: f.last_modified,
        last_accessed: f.last_accessed,
        tidy_score,
    }
}

/// A copy of a tidy score, with the same model.
pub fn clone_score(s: &TidyScore) -> (res: TidyScore)
    ensures
        score_model(res) == score_model(*s),
    decreases *s, 1int,
{
    let duplicated = match &s.duplicated {
        Some(v) => Some(clone_files(v)),
        None => None,
    };
    TidyScore { misnamed: s.misnamed, unused: s.unused, duplicated }
}

/// A copy of a list of file records, with the same model.
pub fn clone_files(v: &Vec<FileInfo>) -> (res: Vec<FileInfo>)
    ensures
        res@.len() == v@.len(),
        files_model(res@) == files_model(v@),
    decreases *v, 0int,
{
    let mut res: Vec<FileInfo> = Vec::new();
    let mut i: usize = 0;
    while i < v.len()
        invariant
            i <= v.len(),
            res@.len() == i,
            forall|k: int| 0 <= k < i ==> file_model(#[trigger] res@[k]) == file_model(v@[k]),
        decreases v.len() - i,
    {
        proof {
            assert(decreases_to!(*v => v@));
            assert(decreases_to!(v@ => v@[i as int]));
        }
        let c = clone_file(&v[i]);
        res.push(c);
        i = i + 1;
    }
    proof {
        lemma_files_model_ext(res@, v@);
    }
    res
}

/// The characters of an optional hash.
pub open spec fn hash_view(h: Option<String>) -> Option<Seq<char>> {
    match h {
        Some(s) => Some(s@),
        None => None,
    }
}

impl FileInfo {
    /// The record of a file about which nothing is known yet: empty paths,
    /// size 0, no hash, both times at the UNIX epoch and no tidy score.
    pub fn default() -> (res: FileInfo)
        ensures
            res.pretty_path@ == Seq::<char>::empty(),
            res.path@ == Seq::<char>::empty(),
            res.size == 0,
            (res.hash is None),
            res.last_modified.secs == 0 && res.last_modified.nanos == 0,
            res.last_accessed.secs == 0 && res.last_accessed.nanos == 0,
            (res.tidy_score is None),
    {
        FileInfo {
            pretty_path: String::new(),
            path: String::new(),
            size: 0,
            hash: None,
            last_modified: Timestamp::unix_epoch(),
            last_accessed: Timestamp::unix_epoch(),
            tidy_score: None,
        }
    }

    /// Two files are "equal" when their hashes are (two files without a
    /// hash are equal too): this is how duplicates are told apart.
    pub open spec fn same_hash(self, other: FileInfo) -> bool {
        hash_view(self.hash) == hash_view(other.hash)
    }

    /// Whether `self` and `other` have the same hash (`FileInfo::eq`).
    pub fn eq(&self, other: &FileInfo) -> (res: bool)
        ensures
            res == self.same_hash(*other),
    {
        match (&self.hash, &other.hash) {
            (Some(a), Some(b)) => {
                let ac = to_chars(a.as_str());
                let bc = to_chars(b.as_str());
                crate::text::chars_eq(&ac, &bc)
            },
            (None, None) => true,
            _ => false,
        }
    }
}

/// The path as the agent keeps it. On UNIX-like systems a canonical path
/// needs no fixing: the result is the path itself.
pub fn fix_canonicalize_path(path: &str) -> (res: String)
    ensures
        res@ == path@,
{
    let cs = to_chars(path);
    from_chars(&cs)
}

/// The 128-bit XXH3 hash of `input` (`xxhash_rust::xxh3::xxh3_128`).
pub uninterp spec fn xxh3_128_hash(input: Seq<u8>) -> u128;

/// `xxhash_rust::xxh3::xxh3_128`. The contract claims only that the hash is
/// the one named [`xxh3_128_hash`], a function of the bytes alone.
#[verifier::external_body]
fn xxh3_128(input: &[u8]) -> (res: u128)
    ensures
        res == xxh3_128_hash(input@),
{
    xxhash_rust::xxh3::xxh3_128(input)
}

/// The signature of a file: the XXH3-128 hash of its whole content.
pub fn get_file_signature(contents: &Vec<u8>) -> (res: u128)
    ensures
        res == xxh3_128_hash(contents@),
{
    xxh3_128(contents.as_slice())
}

/// The record of a regular file, from what the file system reported of it:
/// its canonical path, its size, its last modification and access times and
/// its whole content. Both paths are the (fixed) canonical path, the hash is
/// the decimal rendering of the content's signature, and there is no score.
pub fn create_file_info(
    canonical_path: &str,
    size: u64,
    last_modified: Timestamp,
    last_accessed: Timestamp,
    contents: &Vec<u8>,
) -> (res: FileInfo)
    ensures
        res.pretty_path@ == canonical_path@,
        res.path@ == canonical_path@,
        res.size == size,
        (res.hash is Some),
        res.hash->0@ == decimal(xxh3_128_hash(contents@) as nat),
        res.last_modified == last_modified,
        res.last_accessed == last_accessed,
        (res.tidy_score is None),
{
    let signature = get_file_signature(contents);
    FileInfo {
        pretty_path: fix_canonicalize_path(canonical_path),
        path: fix_canonicalize_path(canonical_path),
        size,
        hash: Some(decimal_string(signature)),
        last_modified,
        last_accessed,
        tidy_score: None,
    }
}

} // verus!
