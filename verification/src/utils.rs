//! Paths as the user sees them.
use vstd::prelude::*;

use crate::text::{contains_seq, find_chars, from_chars, is_first_occurrence, suffix_from, to_chars};

verus! {

/// The first index at which `needle` occurs in `hay`.
pub open spec fn first_index(hay: Seq<char>, needle: Seq<char>) -> int {
    choose|i: int| is_first_occurrence(hay, needle, i)
}

/// The pretty form of `path`: from where the first of `roots` (in order)
/// that occurs in it first occurs, to its end; the path itself when no root
/// occurs in it.
pub open spec fn pretty_path_spec(path: Seq<char>, roots: Seq<Seq<char>>) -> Seq<char>
    decreases roots.len(),
{
    if roots.len() == 0 {
        path
    } else if contains_seq(path, roots[0]) {
        path.subrange(first_index(path, roots[0]), path.len() as int)
    } else {
        pretty_path_spec(path, roots.drop_first())
    }
}

/// Converts a path to its pretty form by dropping what comes before the
/// first root found in it, as [`pretty_path_spec`] states.
pub fn path_to_pretty_path(path: &String, roots: &Vec<String>) -> (res: String)
    ensures
        res@ == pretty_path_spec(path@, roots@.map_values(|r: String| r@)),
{
    let ghost rs = roots@.map_values(|r: String| r@);
    let p = to_chars(path.as_str());
    let mut i: usize = 0;
    assert(rs.subrange(0, rs.len() as int) =~= rs);
    while i < roots.len()
        invariant
            i <= roots.len(),
            rs == roots@.map_values(|r: String| r@),
            p@ == path@,
            pretty_path_spec(path@, rs) == pretty_path_spec(path@, rs.subrange(i as int, rs.len() as int)),
        decreases roots.len() - i,
    {
        let ghost rest = rs.subrange(i as int, rs.len() as int);
        assert(rest[0] == roots@[i as int]@);
        let r = to_chars(roots[i].as_str());
        match find_chars(&p, &r) {
            Some(idx) => {
                proof {
                    assert(contains_seq(path@, rest[0]));
                    let fi = first_index(path@, rest[0]);
                    assert(is_first_occurrence(path@, rest[0], fi));
                    assert(fi == idx) by {
                        if fi < idx {
                        } else if fi > idx {
                        }
                    }
                }
                let tail = suffix_from(&p, idx);
                return from_chars(&tail);
            },
            None => {
                assert(rest.drop_first() =~= rs.subrange(i + 1, rs.len() as int));
            },
        }
        i = i + 1;
    }
    from_chars(&p)
}

/// A pretty path is a suffix of the path it comes from.
pub proof fn lemma_pretty_path_is_suffix(path: Seq<char>, roots: Seq<Seq<char>>)
    ensures
        ({
            let pretty = pretty_path_spec(path, roots);
            &&& pretty.len() <= path.len()
            &&& pretty == path.subrange(path.len() - pretty.len(), path.len() as int)
        }),
    decreases roots.len(),
{
    if roots.len() == 0 {
        assert(path.subrange(0, path.len() as int) =~= path);
    } else if contains_seq(path, roots[0]) {
        let i = choose|i: int| crate::text::occurs_at(path, roots[0], i);
        assert(exists|k: int| is_first_occurrence(path, roots[0], k)) by {
            lemma_first_occurrence_exists(path, roots[0], i);
        }
        let fi = first_index(path, roots[0]);
        assert(0 <= fi <= path.len());
        assert(path.subrange(fi, path.len() as int) =~= path.subrange(
            path.len() - (path.len() - fi),
            path.len() as int,
        ));
    } else {
        lemma_pretty_path_is_suffix(path, roots.drop_first());
    }
}

/// When `needle` occurs at `i`, it has a first occurrence.
proof fn lemma_first_occurrence_exists(hay: Seq<char>, needle: Seq<char>, i: int)
    requires
        crate::text::occurs_at(hay, needle, i),
    ensures
        exists|k: int| is_first_occurrence(hay, needle, k),
    decreases i,
{
    if exists|j: int| 0 <= j < i && crate::text::occurs_at(hay, needle, j) {
        let j = choose|j: int| 0 <= j < i && crate::text::occurs_at(hay, needle, j);
        lemma_first_occurrence_exists(hay, needle, j);
    } else {
        assert(is_first_occurrence(hay, needle, i));
    }
}

} // verus!
