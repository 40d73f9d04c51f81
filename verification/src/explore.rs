//! Searching the RNG cycle for stretches where a desired outcome comes up often: how many
//! desired outcomes each window of positions holds, and the regions that windows meeting a
//! threshold cover.

use vstd::prelude::*;

verus! {

/// How many of `values[from..to]` are set.
pub open spec fn count_set(values: Seq<bool>, from: int, to: int) -> nat
    decreases to - from,
{
    if to <= from {
        0
    } else {
        count_set(values, from, to - 1) + if values[to - 1] { 1nat } else { 0nat }
    }
}

/// How many windows the explorer looks at: one per start position that leaves a full window,
/// and at least one.
pub open spec fn num_windows(len: nat, window_size: nat) -> nat {
    if len > window_size && len - window_size > 1 { (len - window_size) as nat } else { 1 }
}

/// Where the window starting at `i` ends: a full window, or the end of the values.
pub open spec fn window_end(len: nat, window_size: nat, i: nat) -> nat {
    if i + window_size <= len { i + window_size } else { len }
}

proof fn lemma_count_set_split(values: Seq<bool>, a: int, b: int, c: int)
    requires
        a <= b <= c,
    ensures
        count_set(values, a, c) == count_set(values, a, b) + count_set(values, b, c),
    decreases c - b,
{
    if b < c {
        lemma_count_set_split(values, a, b, c - 1);
    }
}

proof fn lemma_count_set_bound(values: Seq<bool>, a: int, b: int)
    requires
        a <= b,
    ensures
        count_set(values, a, b) <= b - a,
    decreases b - a,
{
    if a < b {
        lemma_count_set_bound(values, a, b - 1);
    }
}

/// For each window of `window_size` positions (see `num_windows` and `window_end`), how many of
/// its values are set.
pub fn window_counts(values: &Vec<bool>, window_size: usize) -> (r: Vec<usize>)
    ensures
        r@.len() == num_windows(values@.len(), window_size as nat),
        forall|i: int| 0 <= i < r@.len() ==> #[trigger] r@[i] == count_set(values@, i, window_end(values@.len(), window_size as nat, i as nat) as int),
{
    let len = values.len();
    let mut prefixes: Vec<usize> = Vec::new();
    prefixes.push(0);
    let mut k: usize = 0;
    while k < len
        invariant
            len == values@.len(),
            k <= len,
            prefixes@.len() == k + 1,
            forall|j: int| 0 <= j <= k ==> #[trigger] prefixes@[j] == count_set(values@, 0, j),
        decreases len - k,
    {
        proof {
            lemma_count_set_bound(values@, 0, k as int);
        }
        let last = prefixes[k];
        prefixes.push(last + if values[k] { 1 } else { 0 });
        k = k + 1;
    }

    let num_points = if len > window_size && len - window_size > 1 { len - window_size } else { 1 };
    let mut counts: Vec<usize> = Vec::new();
    let mut i: usize = 0;
    while i < num_points
        invariant
            len == values@.len(),
            prefixes@.len() == len + 1,
            forall|j: int| 0 <= j <= len ==> #[trigger] prefixes@[j] == count_set(values@, 0, j),
            num_points == num_windows(len as nat, window_size as nat),
            num_points <= len || num_points == 1,
            i <= num_points,
            counts@.len() == i,
            forall|j: int| 0 <= j < i ==> #[trigger] counts@[j] == count_set(values@, j, window_end(len as nat, window_size as nat, j as nat) as int),
        decreases num_points - i,
    {
        let end = if window_size <= len - i { i + window_size } else { len };
        proof {
            lemma_count_set_split(values@, 0, i as int, end as int);
        }
        counts.push(prefixes[end] - prefixes[i]);
        i = i + 1;
    }
    counts
}

/// The regions covered by the windows that meet the threshold among the first `n` windows:
/// a meeting window that starts inside the last region extends it to its own end, and one that
/// starts after it begins a new region.
pub open spec fn regions_spec(len: nat, window_size: nat, meets: Seq<bool>, n: nat) -> Seq<(usize, usize)>
    decreases n,
{
    if n == 0 {
        seq![]
    } else {
        let prev = regions_spec(len, window_size, meets, (n - 1) as nat);
        let i = (n - 1) as nat;
        let end = window_end(len, window_size, i) as usize;
        if meets[i as int] {
            if prev.len() > 0 && i < prev.last().1 {
                prev.drop_last().push((prev.last().0, end))
            } else {
                prev.push((i as usize, end))
            }
        } else {
            prev
        }
    }
}

/// The regions of the RNG cycle (as positions among the values) covered by windows that meet the
/// threshold: `meets[i]` says whether window `i` does.
pub fn threshold_regions(len: usize, window_size: usize, meets: &Vec<bool>) -> (r: Vec<(usize, usize)>)
    ensures
        r@ == regions_spec(len as nat, window_size as nat, meets@, meets@.len()),
        meets@.len() <= len || meets@.len() <= 1 ==> regions_in_order(r@, len as nat, meets@),
{
    let mut regions: Vec<(usize, usize)> = Vec::new();
    let mut i: usize = 0;
    while i < meets.len()
        invariant
            i <= meets@.len(),
            regions@ == regions_spec(len as nat, window_size as nat, meets@, i as nat),
        decreases meets@.len() - i,
    {
        let end = if i <= len && window_size <= len - i { i + window_size } else { len };
        if meets[i] {
            let n = regions.len();
            if n > 0 && i < regions[n - 1].1 {
                let start = regions[n - 1].0;
                regions.set(n - 1, (start, end));
                proof {
                    let prev = regions_spec(len as nat, window_size as nat, meets@, i as nat);
                    assert(regions@ =~= prev.drop_last().push((prev.last().0, end)));
                }
            } else {
                regions.push((i, end));
            }
        }
        i = i + 1;
    }
    proof {
        if meets@.len() <= len || meets@.len() <= 1 {
            lemma_regions_ordered(len as nat, window_size as nat, meets@, meets@.len());
        }
    }
    regions
}

/// Regions in increasing order that do not overlap, each starting at a window that meets the
/// threshold and ending no later than the values.
pub open spec fn regions_in_order(r: Seq<(usize, usize)>, len: nat, meets: Seq<bool>) -> bool {
    &&& forall|k: int| 0 <= k < r.len() ==> meets[(#[trigger] r[k]).0 as int] && r[k].0 <= r[k].1 <= len
    &&& forall|k: int, l: int| 0 <= k < l < r.len() ==> (#[trigger] r[k]).1 <= (#[trigger] r[l]).0
}

/// The regions are in increasing order and do not overlap; each starts at a window that meets
/// the threshold and ends no later than the values (and no later than the last window looked at).
pub proof fn lemma_regions_ordered(len: nat, window_size: nat, meets: Seq<bool>, n: nat)
    requires
        n <= meets.len(),
        n <= len || n <= 1,
        len <= usize::MAX,
    ensures
        forall|k: int| 0 <= k < regions_spec(len, window_size, meets, n).len() ==> {
            let r = #[trigger] regions_spec(len, window_size, meets, n)[k];
            &&& r.0 < n && meets[r.0 as int]
            &&& r.0 <= r.1 <= len
            &&& n > 0 ==> r.1 <= window_end(len, window_size, (n - 1) as nat)
        },
        forall|k: int, l: int| 0 <= k < l < regions_spec(len, window_size, meets, n).len() ==>
            (#[trigger] regions_spec(len, window_size, meets, n)[k]).1 <= (#[trigger] regions_spec(len, window_size, meets, n)[l]).0,
    decreases n,
{
    if n > 0 {
        let m = (n - 1) as nat;
        lemma_regions_ordered(len, window_size, meets, m);
        let prev = regions_spec(len, window_size, meets, m);
        let cur = regions_spec(len, window_size, meets, n);
        assert(m <= window_end(len, window_size, m) <= len);
        if m > 0 {
            assert(window_end(len, window_size, (m - 1) as nat) <= window_end(len, window_size, m));
        } else {
            assert(prev.len() == 0);
        }
        if meets[m as int] && prev.len() > 0 && m < prev.last().1 {
            assert forall|k: int| 0 <= k < cur.len() implies ({
                let r = #[trigger] cur[k];
                &&& r.0 < n && meets[r.0 as int]
                &&& r.0 <= r.1 <= len
                &&& r.1 <= window_end(len, window_size, m)
            }) by {
                if k < cur.len() - 1 {
                    assert(cur[k] == prev[k]);
                } else {
                    assert(cur[k] == (prev.last().0, window_end(len, window_size, m) as usize));
                    assert(prev.last() == prev[prev.len() - 1]);
                }
            }
            assert forall|k: int, l: int| 0 <= k < l < cur.len() implies (#[trigger] cur[k]).1 <= (#[trigger] cur[l]).0 by {
                assert(cur[k] == prev[k]);
                if l < cur.len() - 1 {
                    assert(cur[l] == prev[l]);
                } else {
                    assert(cur[l].0 == prev[l].0);
                }
            }
        } else if meets[m as int] {
            assert forall|k: int| 0 <= k < cur.len() implies ({
                let r = #[trigger] cur[k];
                &&& r.0 < n && meets[r.0 as int]
                &&& r.0 <= r.1 <= len
                &&& r.1 <= window_end(len, window_size, m)
            }) by {
                if k < prev.len() {
                    assert(cur[k] == prev[k]);
                } else {
                    assert(cur[k] == (m as usize, window_end(len, window_size, m) as usize));
                }
            }
            assert forall|k: int, l: int| 0 <= k < l < cur.len() implies (#[trigger] cur[k]).1 <= (#[trigger] cur[l]).0 by {
                assert(cur[k] == prev[k]);
                if l < prev.len() {
                    assert(cur[l] == prev[l]);
                } else {
                    // the new region starts at or after the end of the last one
                    assert(prev[k].1 <= prev.last().1) by {
                        if k < prev.len() - 1 {
                            assert(prev[k].1 <= prev[prev.len() - 1].0);
                        }
                    }
                }
            }
        }
    }
}

} // verus!
