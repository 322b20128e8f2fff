//! The agent's identity as it is stored between runs.
use vstd::prelude::*;

use crate::text::{from_chars, to_chars};

verus! {

/// The text stored as the agent's identity: the given text without its
/// first and last characters (nothing when it has fewer than two).
pub open spec fn uuid_file_contents_spec(uuid: Seq<char>) -> Seq<char> {
    if uuid.len() < 2 {
        Seq::empty()
    } else {
        uuid.subrange(1, uuid.len() - 1)
    }
}

/// The text stored as the agent's identity, as
/// [`uuid_file_contents_spec`] states.
pub fn uuid_file_contents(uuid: &str) -> (res: String)
    ensures
        res@ == uuid_file_contents_spec(uuid@),
{
    let cs = to_chars(uuid);
    if cs.len() < 2 {
        return String::new();
    }
    let inner = crate::text::suffix_from(&crate::text::prefix_to(&cs, cs.len() - 1), 1);
    assert(cs@.subrange(0, cs@.len() - 1).subrange(1, cs@.len() - 1) =~= cs@.subrange(
        1,
        cs@.len() - 1,
    ));
    from_chars(&inner)
}

} // verus!
