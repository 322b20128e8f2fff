//! The agent's HTTP server: the records it exchanges and how it orders the
//! files it lists.
use vstd::prelude::*;

use crate::file_info::{FileInfo, Timestamp};
use crate::sorting::{is_stable_desc_sort, sort_desc_by_key};
use crate::text::{chars_eq, to_chars, to_lowercase, unicode_lowercase};

pub mod http_server;
pub mod routes;

verus! {

/// A request forwarded by the server: where it goes and its body.
pub struct HttpRequest {
    pub host: String,
    pub body: String,
}

/// The answer to a forwarded request.
pub struct HttpResponse {
    pub body: String,
}

/// The greeting of the root route.
pub struct Greeting {
    pub message: String,
}

/// The root route's greeting: `Hello, World!`.
pub fn hello_world() -> (res: Greeting)
    ensures
        res.message@ == "Hello, World!"@,
{
    Greeting { message: "Hello, World!".to_owned() }
}

/// The order in which the files route lists files.
#[derive(Clone, Copy, Debug, PartialEq, Eq, Structural)]
pub enum SortKey {
    Size,
    LastUpdate,
}

/// The order a `sort_by` parameter asks for: by last update for
/// `last_update` in any case, by size for `size` and for anything else.
pub open spec fn sort_key_spec(sort_by: Seq<char>) -> SortKey {
    if unicode_lowercase(sort_by) == "last_update"@ {
        SortKey::LastUpdate
    } else {
        SortKey::Size
    }
}

/// Whether a `sort_by` parameter names an order (`size` or `last_update`
/// in any case); any other defaults to size and is reported.
pub open spec fn sort_by_known(sort_by: Seq<char>) -> bool {
    unicode_lowercase(sort_by) == "size"@ || unicode_lowercase(sort_by) == "last_update"@
}

/// The order a `sort_by` parameter asks for, and whether it named one.
pub fn sort_key_of(sort_by: &str) -> (res: (SortKey, bool))
    ensures
        res.0 == sort_key_spec(sort_by@),
        res.1 == sort_by_known(sort_by@),
{
    let lower = to_lowercase(sort_by);
    let w = to_chars(lower.as_str());
    if chars_eq(&w, &to_chars("size")) {
        proof {
            reveal_strlit("size");
            reveal_strlit("last_update");
            assert("size"@.len() == 4);
            assert("last_update"@.len() == 11);
            assert("size"@ != "last_update"@);
        }
        (SortKey::Size, true)
    } else if chars_eq(&w, &to_chars("last_update")) {
        (SortKey::LastUpdate, true)
    } else {
        (SortKey::Size, false)
    }
}

/// An instant as a sort key that orders instants as `SystemTime` does
/// (seconds first, then nanoseconds).
pub open spec fn time_key(t: Timestamp) -> i128 {
    (t.secs * 0x1_0000_0000 + t.nanos) as i128
}

/// The sort keys of the files for an order.
pub open spec fn file_keys(files: Seq<FileInfo>, key: SortKey) -> Seq<i128> {
    Seq::new(
        files.len(),
        |i: int|
            match key {
                SortKey::Size => files[i].size as i128,
                SortKey::LastUpdate => time_key(files[i].last_modified),
            },
    )
}

fn keys_of(files: &Vec<FileInfo>, key: SortKey) -> (res: Vec<i128>)
    ensures
        res@ == file_keys(files@, key),
{
    let mut res: Vec<i128> = Vec::new();
    let mut i: usize = 0;
    while i < files.len()
        invariant
            i <= files.len(),
            res@ == file_keys(files@, key).subrange(0, i as int),
        decreases files.len() - i,
    {
        let k: i128 = match key {
            SortKey::Size => files[i].size as i128,
            SortKey::LastUpdate => {
                let t = files[i].last_modified;
                t.secs as i128 * 0x1_0000_0000i128 + t.nanos as i128
            },
        };
        res.push(k);
        i = i + 1;
        assert(res@ =~= file_keys(files@, key).subrange(0, i as int));
    }
    assert(res@ =~= file_keys(files@, key));
    res
}

/// The first `amount` files in the order `sort_by` asks for, largest (or
/// latest) first; files with the same key keep their order.
pub fn get_files_sorted(files: Vec<FileInfo>, sort_by: &str, amount: usize) -> (res: Vec<FileInfo>)
    ensures
        exists|sorted: Seq<FileInfo>|
            #![trigger is_stable_desc_sort(files@, file_keys(files@, sort_key_spec(sort_by@)), sorted)]
            is_stable_desc_sort(files@, file_keys(files@, sort_key_spec(sort_by@)), sorted)
                && res@ == sorted.take(
                if amount < sorted.len() {
                    amount as int
                } else {
                    sorted.len() as int
                },
            ),
{
    let (key, _known) = sort_key_of(sort_by);
    let keys = keys_of(&files, key);
    let mut sorted = sort_desc_by_key(files, &keys);
    let ghost full = sorted@;
    sorted.truncate(amount);
    assert(sorted@ =~= full.take(
        if amount < full.len() {
            amount as int
        } else {
            full.len() as int
        },
    ));
    sorted
}

} // verus!
