//! Queries over a list of files: the heaviest, the oldest, a number of
//! them, and those whose path holds a text.
use vstd::prelude::*;

use crate::sorting::{is_stable_desc_sort, sort_desc_by_key};
use crate::text::{contains_chars, contains_seq, to_chars};

verus! {

/// A file as the standalone agent lists it.
#[derive(Clone, Debug)]
pub struct FileInfo {
    pub path: String,
    pub size: u64,
    pub last_access: u64,
}

/// The sizes of the files, as sort keys.
pub open spec fn size_keys(files: Seq<FileInfo>) -> Seq<i128> {
    Seq::new(files.len(), |i: int| files[i].size as i128)
}

/// The last access times of the files, as sort keys.
pub open spec fn access_keys(files: Seq<FileInfo>) -> Seq<i128> {
    Seq::new(files.len(), |i: int| files[i].last_access as i128)
}

fn sizes_of(files: &Vec<FileInfo>) -> (res: Vec<i128>)
    ensures
        res@ == size_keys(files@),
{
    let mut res: Vec<i128> = Vec::new();
    let mut i: usize = 0;
    while i < files.len()
        invariant
            i <= files.len(),
            res@ == size_keys(files@).subrange(0, i as int),
        decreases files.len() - i,
    {
        res.push(files[i].size as i128);
        i = i + 1;
        assert(res@ =~= size_keys(files@).subrange(0, i as int));
    }
    assert(res@ =~= size_keys(files@));
    res
}

fn accesses_of(files: &Vec<FileInfo>) -> (res: Vec<i128>)
    ensures
        res@ == access_keys(files@),
{
    let mut res: Vec<i128> = Vec::new();
    let mut i: usize = 0;
    while i < files.len()
        invariant
            i <= files.len(),
            res@ == access_keys(files@).subrange(0, i as int),
        decreases files.len() - i,
    {
        res.push(files[i].last_access as i128);
        i = i + 1;
        assert(res@ =~= access_keys(files@).subrange(0, i as int));
    }
    assert(res@ =~= access_keys(files@));
    res
}

/// The files, most recently accessed first; files accessed at the same time
/// keep their order.
pub fn get_oldest_files_from_vec(files: Vec<FileInfo>) -> (res: Vec<FileInfo>)
    ensures
        is_stable_desc_sort(files@, access_keys(files@), res@),
{
    let keys = accesses_of(&files);
    sort_desc_by_key(files, &keys)
}

/// The files, heaviest first; files of the same size keep their order.
pub fn get_heaviest_files_from_vec(files: Vec<FileInfo>) -> (res: Vec<FileInfo>)
    ensures
        is_stable_desc_sort(files@, size_keys(files@), res@),
{
    let keys = sizes_of(&files);
    sort_desc_by_key(files, &keys)
}

/// The `amount` heaviest files, heaviest first (all of them when there are
/// fewer).
pub fn get_amount_files_from_vec(files: Vec<FileInfo>, amount: usize) -> (res: Vec<FileInfo>)
    ensures
        exists|sorted: Seq<FileInfo>|
            #![trigger is_stable_desc_sort(files@, size_keys(files@), sorted)]
            is_stable_desc_sort(files@, size_keys(files@), sorted) && res@ == sorted.take(
                if amount < sorted.len() {
                    amount as int
                } else {
                    sorted.len() as int
                },
            ),
{
    let keys = sizes_of(&files);
    let ghost orig = files@;
    let mut sorted = sort_desc_by_key(files, &keys);
    let ghost full = sorted@;
    sorted.truncate(amount);
    assert(sorted@ =~= full.take(
        if amount < full.len() {
            amount as int
        } else {
            full.len() as int
        },
    ));
    sorted
}

/// The files whose path holds `string`, in order.
pub fn get_files_that_match_string(files: Vec<FileInfo>, string: String) -> (res: Vec<FileInfo>)
    ensures
        res@ == files@.filter(|f: FileInfo| contains_seq(f.path@, string@)),
{
    keep_matching(files, &string)
}

/// The files whose path holds `path`, in order.
pub fn get_files_that_match_path(files: Vec<FileInfo>, path: String) -> (res: Vec<FileInfo>)
    ensures
        res@ == files@.filter(|f: FileInfo| contains_seq(f.path@, path@)),
{
    keep_matching(files, &path)
}

fn keep_matching(files: Vec<FileInfo>, needle: &String) -> (res: Vec<FileInfo>)
    ensures
        res@ == files@.filter(|f: FileInfo| contains_seq(f.path@, needle@)),
{
    let ghost pred = |f: FileInfo| contains_seq(f.path@, needle@);
    let ghost orig = files@;
    let n = files.len();
    let nd = to_chars(needle.as_str());
    let mut files = files;
    let mut res: Vec<FileInfo> = Vec::new();
    let mut k: usize = 0;
    while k < n
        invariant
            n == orig.len(),
            k <= n,
            nd@ == needle@,
            files@ == orig.subrange(k as int, n as int),
            pred == (|f: FileInfo| contains_seq(f.path@, needle@)),
            res@ == orig.subrange(0, k as int).filter(pred),
        decreases n - k,
    {
        let f = files.remove(0);
        assert(f == orig[k as int]);
        proof {
            assert(orig.subrange(0, k + 1) =~= orig.subrange(0, k as int).push(f));
            orig.subrange(0, k as int).lemma_filter_push(f, pred);
        }
        let p = to_chars(f.path.as_str());
        if contains_chars(&p, &nd) {
            res.push(f);
        }
        k = k + 1;
        assert(files@ =~= orig.subrange(k as int, n as int));
    }
    assert(orig.subrange(0, n as int) =~= orig);
    res
}

/// The queries the standalone agent offers on a list of files.
pub struct Params;

impl Params {
    pub fn new() -> (res: Params) {
        Params
    }

    /// The `amount` heaviest files.
    pub fn amount(&self, files: Vec<FileInfo>, amount: usize) -> (res: Vec<FileInfo>)
        ensures
            exists|sorted: Seq<FileInfo>|
                #![trigger is_stable_desc_sort(files@, size_keys(files@), sorted)]
                is_stable_desc_sort(files@, size_keys(files@), sorted) && res@ == sorted.take(
                    if amount < sorted.len() {
                        amount as int
                    } else {
                        sorted.len() as int
                    },
                ),
    {
        get_amount_files_from_vec(files, amount)
    }

    /// The files, heaviest first.
    pub fn heaviest(&self, files: Vec<FileInfo>) -> (res: Vec<FileInfo>)
        ensures
            is_stable_desc_sort(files@, size_keys(files@), res@),
    {
        get_heaviest_files_from_vec(files)
    }

    /// The files, most recently accessed first.
    pub fn oldest(&self, files: Vec<FileInfo>) -> (res: Vec<FileInfo>)
        ensures
            is_stable_desc_sort(files@, access_keys(files@), res@),
    {
        get_oldest_files_from_vec(files)
    }

    /// The files whose path holds `string`.
    pub fn match_string(&self, files: Vec<FileInfo>, string: String) -> (res: Vec<FileInfo>)
        ensures
            res@ == files@.filter(|f: FileInfo| contains_seq(f.path@, string@)),
    {
        get_files_that_match_string(files, string)
    }

    /// The files whose path holds `path`.
    pub fn match_path(&self, files: Vec<FileInfo>, path: String) -> (res: Vec<FileInfo>)
        ensures
            res@ == files@.filter(|f: FileInfo| contains_seq(f.path@, path@)),
    {
        get_files_that_match_path(files, path)
    }
}

} // verus!
