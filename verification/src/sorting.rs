//! Stable sorting in descending order of a key, as `sort_by` with a
//! comparator `|a, b| key(b).cmp(&key(a))` does.
use vstd::prelude::*;

verus! {

/// `p` lists each index below `n` exactly once.
pub open spec fn is_permutation(p: Seq<int>, n: nat) -> bool {
    &&& p.len() == n
    &&& forall|i: int| 0 <= i < n ==> 0 <= #[trigger] p[i] < n
    &&& forall|i: int, j: int| 0 <= i < j < n ==> p[i] != p[j]
}

/// Listing the elements in the order `p` sorts them by descending key, and
/// elements with equal keys keep their order.
pub open spec fn is_stable_desc_order(keys: Seq<i128>, p: Seq<int>) -> bool {
    &&& is_permutation(p, keys.len())
    &&& forall|i: int, j: int|
        0 <= i < j < p.len() ==> keys[#[trigger] p[i]] >= keys[#[trigger] p[j]]
    &&& forall|i: int, j: int|
        0 <= i < j < p.len() && keys[#[trigger] p[i]] == keys[#[trigger] p[j]] ==> p[i] < p[j]
}

/// `sorted` is `items` sorted stably by descending key (`keys[i]` is the key
/// of `items[i]`).
pub open spec fn is_stable_desc_sort<T>(items: Seq<T>, keys: Seq<i128>, sorted: Seq<T>) -> bool {
    exists|p: Seq<int>|
        #![trigger is_stable_desc_order(keys, p)]
        is_stable_desc_order(keys, p) && sorted.len() == items.len() && forall|i: int|
            0 <= i < sorted.len() ==> sorted[i] == items[#[trigger] p[i]]
}

/// The first position `j` in `rkeys` whose key is at most `k` (or the end).
fn insertion_point(rkeys: &Vec<i128>, k: i128) -> (j: usize)
    ensures
        j <= rkeys.len(),
        forall|t: int| 0 <= t < j ==> rkeys@[t] > k,
        j < rkeys.len() ==> rkeys@[j as int] <= k,
{
    let mut j: usize = 0;
    while j < rkeys.len() && rkeys[j] > k
        invariant
            j <= rkeys.len(),
            forall|t: int| 0 <= t < j ==> rkeys@[t] > k,
        decreases rkeys.len() - j,
    {
        j = j + 1;
    }
    j
}

/// `items` sorted stably by descending key (`keys[i]` is the key of
/// `items[i]`), as `sort_by` with a reversed key comparison sorts them.
pub fn sort_desc_by_key<T>(items: Vec<T>, keys: &Vec<i128>) -> (res: Vec<T>)
    requires
        keys@.len() == items@.len(),
    ensures
        is_stable_desc_sort(items@, keys@, res@),
{
    let ghost orig = items@;
    let n = items.len();
    let mut items = items;
    let mut res: Vec<T> = Vec::new();
    let mut rkeys: Vec<i128> = Vec::new();
    let ghost mut p: Seq<int> = Seq::empty();
    let mut i: usize = n;
    while i > 0
        invariant
            n == orig.len() == keys@.len(),
            i <= n,
            items@ == orig.subrange(0, i as int),
            res@.len() == p.len() == rkeys@.len() == n - i,
            forall|t: int| 0 <= t < p.len() ==> i <= #[trigger] p[t] < n,
            forall|a: int, b: int| 0 <= a < b < p.len() ==> p[a] != p[b],
            forall|t: int| 0 <= t < p.len() ==> res@[t] == orig[#[trigger] p[t]],
            forall|t: int| 0 <= t < p.len() ==> rkeys@[t] == keys@[#[trigger] p[t]],
            forall|a: int, b: int|
                0 <= a < b < p.len() ==> keys@[#[trigger] p[a]] >= keys@[#[trigger] p[b]],
            forall|a: int, b: int|
                0 <= a < b < p.len() && keys@[#[trigger] p[a]] == keys@[#[trigger] p[b]] ==> p[a]
                    < p[b],
        decreases i,
    {
        let x = items.pop().unwrap();
        i = i - 1;
        assert(x == orig[i as int]);
        assert(items@ =~= orig.subrange(0, i as int));
        let k = keys[i];
        let j = insertion_point(&rkeys, k);
        let ghost old_p = p;
        let ghost old_res = res@;
        let ghost old_rkeys = rkeys@;
        res.insert(j, x);
        rkeys.insert(j, k);
        proof {
            p = old_p.insert(j as int, i as int);
            assert forall|t: int| 0 <= t < p.len() implies i <= #[trigger] p[t] < n by {
                if t < j {
                    assert(p[t] == old_p[t]);
                } else if t > j {
                    assert(p[t] == old_p[t - 1]);
                }
            }
            assert forall|t: int| 0 <= t < p.len() implies res@[t] == orig[#[trigger] p[t]] by {
                if t < j {
                    assert(p[t] == old_p[t]);
                    assert(res@[t] == old_res[t]);
                } else if t > j {
                    assert(p[t] == old_p[t - 1]);
                    assert(res@[t] == old_res[t - 1]);
                }
            }
            assert forall|t: int| 0 <= t < p.len() implies rkeys@[t] == keys@[#[trigger] p[t]] by {
                if t < j {
                    assert(p[t] == old_p[t]);
                    assert(rkeys@[t] == old_rkeys[t]);
                } else if t > j {
                    assert(p[t] == old_p[t - 1]);
                    assert(rkeys@[t] == old_rkeys[t - 1]);
                }
            }
            assert forall|a: int, b: int| 0 <= a < b < p.len() implies p[a] != p[b] by {
                if a < j && b < j {
                    assert(p[a] == old_p[a] && p[b] == old_p[b]);
                } else if a < j && b == j {
                    assert(p[a] == old_p[a]);
                } else if a < j && b > j {
                    assert(p[a] == old_p[a] && p[b] == old_p[b - 1]);
                } else if a == j {
                    assert(p[b] == old_p[b - 1]);
                } else {
                    assert(p[a] == old_p[a - 1] && p[b] == old_p[b - 1]);
                }
            }
            assert forall|a: int, b: int|
                0 <= a < b < p.len() implies keys@[#[trigger] p[a]] >= keys@[#[trigger] p[b]] by {
                if a < j && b < j {
                    assert(p[a] == old_p[a] && p[b] == old_p[b]);
                } else if a < j && b == j {
                    assert(p[a] == old_p[a]);
                    assert(old_rkeys[a] > k);
                } else if a < j && b > j {
                    assert(p[a] == old_p[a] && p[b] == old_p[b - 1]);
                } else if a == j {
                    assert(p[b] == old_p[b - 1]);
                    assert(old_rkeys[j as int] <= k);
                    if b - 1 > j {
                        assert(keys@[old_p[j as int]] >= keys@[old_p[b - 1]]);
                    }
                } else {
                    assert(p[a] == old_p[a - 1] && p[b] == old_p[b - 1]);
                }
            }
            assert forall|a: int, b: int|
                0 <= a < b < p.len() && keys@[#[trigger] p[a]] == keys@[#[trigger] p[b]] implies p[a]
                < p[b] by {
                if a < j && b < j {
                    assert(p[a] == old_p[a] && p[b] == old_p[b]);
                } else if a < j && b == j {
                    assert(p[a] == old_p[a]);
                    assert(old_rkeys[a] > k);
                } else if a < j && b > j {
                    assert(p[a] == old_p[a] && p[b] == old_p[b - 1]);
                } else if a == j {
                    assert(p[b] == old_p[b - 1]);
                } else {
                    assert(p[a] == old_p[a - 1] && p[b] == old_p[b - 1]);
                }
            }
        }
    }
    assert(is_stable_desc_order(keys@, p));
    res
}

/// A stable descending sort lists elements by descending key: the keys of
/// the elements it returns never increase, and it returns each element as
/// often as it was given.
pub proof fn lemma_stable_sort_ordered<T>(items: Seq<T>, keys: Seq<i128>, sorted: Seq<T>)
    requires
        is_stable_desc_sort(items, keys, sorted),
        keys.len() == items.len(),
    ensures
        sorted.len() == items.len(),
        exists|p: Seq<int>|
            #![trigger is_permutation(p, items.len())]
            is_permutation(p, items.len()) && (forall|i: int, j: int|
                0 <= i < j < sorted.len() ==> keys[p[i]] >= keys[p[j]]) && (forall|i: int|
                0 <= i < sorted.len() ==> sorted[i] == #[trigger] items[p[i]]),
{
    let p = choose|p: Seq<int>|
        #![trigger is_stable_desc_order(keys, p)]
        is_stable_desc_order(keys, p) && sorted.len() == items.len() && forall|i: int|
            0 <= i < sorted.len() ==> sorted[i] == items[#[trigger] p[i]];
    assert(is_permutation(p, items.len()));
}

} // verus!
