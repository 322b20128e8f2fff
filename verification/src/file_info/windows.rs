//! Path fixing as it is done on Windows, where `canonicalize` returns
//! verbatim (`\\?\`) paths.
use vstd::prelude::*;

use crate::text::{from_chars, has_prefix, starts_with_chars, suffix_from, to_chars};

verus! {

/// The verbatim path prefix, `\\?\`.
pub open spec fn unc_prefix() -> Seq<char> {
    seq!['\\', '\\', '?', '\\']
}

/// The path without its leading `\\?\`, when it has one; otherwise the
/// path itself.
pub fn fix_canonicalize_path(path: &str) -> (res: String)
    ensures
        has_prefix(path@, unc_prefix()) ==> res@ == path@.subrange(4, path@.len() as int),
        !has_prefix(path@, unc_prefix()) ==> res@ == path@,
{
    let p = to_chars(path);
    let mut prefix: Vec<char> = Vec::new();
    prefix.push('\\');
    prefix.push('\\');
    prefix.push('?');
    prefix.push('\\');
    assert(prefix@ =~= unc_prefix());
    if starts_with_chars(&p, &prefix) {
        let rest = suffix_from(&p, 4);
        from_chars(&rest)
    } else {
        from_chars(&p)
    }
}

} // verus!
