//! Training points and their deduplicating merge.
//!
//! A point is a sequence of binary64 coordinates held as bit patterns; a
//! training set is a sequence of points paired by position with a sequence
//! of outputs.
use vstd::prelude::*;
use crate::ieee::{same_value, is_nan, values_equal};

verus! {

/// `p` and `u` agree, coordinate by coordinate under binary64 equality, on
/// every position that both of them have.
pub open spec fn points_match(p: Seq<u64>, u: Seq<u64>) -> bool {
    forall|j: int| 0 <= j < p.len() && j < u.len() ==> same_value(#[trigger] p[j], u[j])
}

/// Some point of `set` matches `p`.
pub open spec fn has_match(set: Seq<Seq<u64>>, p: Seq<u64>) -> bool {
    exists|i: int| 0 <= i < set.len() && points_match(p, #[trigger] set[i])
}

/// No coordinate of `p` is NaN.
pub open spec fn is_comparable(p: Seq<u64>) -> bool {
    forall|j: int| 0 <= j < p.len() ==> !is_nan(#[trigger] p[j])
}

/// The training set after the first `k` incoming points have been offered,
/// in order: each one without a match in the set built so far is appended
/// together with the output at its own index.
pub open spec fn merged(
    x: Seq<Seq<u64>>,
    y: Seq<u64>,
    x_new: Seq<Seq<u64>>,
    y_new: Seq<u64>,
    k: nat,
) -> (Seq<Seq<u64>>, Seq<u64>)
    decreases k,
{
    if k == 0 {
        (x, y)
    } else {
        let prev = merged(x, y, x_new, y_new, (k - 1) as nat);
        let p = x_new[k - 1];
        if has_match(prev.0, p) {
            prev
        } else {
            (prev.0.push(p), prev.1.push(y_new[k - 1]))
        }
    }
}

/// The training set after all of `x_new` has been offered.
pub open spec fn merge_all(
    x: Seq<Seq<u64>>,
    y: Seq<u64>,
    x_new: Seq<Seq<u64>>,
    y_new: Seq<u64>,
) -> (Seq<Seq<u64>>, Seq<u64>) {
    merged(x, y, x_new, y_new, x_new.len())
}

pub open spec fn view_points(v: Seq<Vec<u64>>) -> Seq<Seq<u64>> {
    v.map_values(|p: Vec<u64>| p@)
}

/// Offering only points that already have a match in the training set leaves
/// the set, points and outputs alike, exactly as it was.
pub proof fn lemma_merge_duplicates_unchanged(
    x: Seq<Seq<u64>>,
    y: Seq<u64>,
    x_new: Seq<Seq<u64>>,
    y_new: Seq<u64>,
)
    requires
        forall|i: int| 0 <= i < x_new.len() ==> has_match(x, #[trigger] x_new[i]),
    ensures
        merge_all(x, y, x_new, y_new) == (x, y),
{
    lemma_merged_unchanged(x, y, x_new, y_new, x_new.len());
}

proof fn lemma_merged_unchanged(
    x: Seq<Seq<u64>>,
    y: Seq<u64>,
    x_new: Seq<Seq<u64>>,
    y_new: Seq<u64>,
    k: nat,
)
    requires
        k <= x_new.len(),
        forall|i: int| 0 <= i < x_new.len() ==> has_match(x, #[trigger] x_new[i]),
    ensures
        merged(x, y, x_new, y_new, k) == (x, y),
    decreases k,
{
    if k > 0 {
        lemma_merged_unchanged(x, y, x_new, y_new, (k - 1) as nat);
        assert(has_match(x, x_new[k - 1]));
    }
}

/// Each step appends to points and outputs alike, so their difference in
/// length never changes.
proof fn lemma_merged_lengths(
    x: Seq<Seq<u64>>,
    y: Seq<u64>,
    x_new: Seq<Seq<u64>>,
    y_new: Seq<u64>,
    k: nat,
)
    ensures
        merged(x, y, x_new, y_new, k).0.len() - x.len() == merged(x, y, x_new, y_new, k).1.len()
            - y.len(),
        merged(x, y, x_new, y_new, k).0.len() <= x.len() + k,
    decreases k,
{
    if k > 0 {
        lemma_merged_lengths(x, y, x_new, y_new, (k - 1) as nat);
    }
}

/// The set built after `k` points is a prefix of the set built after `n`.
proof fn lemma_merged_prefix(
    x: Seq<Seq<u64>>,
    y: Seq<u64>,
    x_new: Seq<Seq<u64>>,
    y_new: Seq<u64>,
    k: nat,
    n: nat,
)
    requires
        k <= n,
    ensures
        merged(x, y, x_new, y_new, k).0.len() <= merged(x, y, x_new, y_new, n).0.len(),
        forall|i: int|
            0 <= i < merged(x, y, x_new, y_new, k).0.len() ==> #[trigger] merged(
                x,
                y,
                x_new,
                y_new,
                n,
            ).0[i] == merged(x, y, x_new, y_new, k).0[i],
    decreases n - k,
{
    if k < n {
        lemma_merged_prefix(x, y, x_new, y_new, k, (n - 1) as nat);
        lemma_merged_prefix(x, y, x_new, y_new, (n - 1) as nat, (n - 1) as nat);
    }
}

/// After a merge, every incoming point without a NaN coordinate has a match
/// in the resulting set.
proof fn lemma_merged_covers(
    x: Seq<Seq<u64>>,
    y: Seq<u64>,
    x_new: Seq<Seq<u64>>,
    y_new: Seq<u64>,
    i: int,
)
    requires
        0 <= i < x_new.len(),
        is_comparable(x_new[i]),
    ensures
        has_match(merge_all(x, y, x_new, y_new).0, x_new[i]),
{
    let p = x_new[i];
    let before = merged(x, y, x_new, y_new, i as nat).0;
    let after = merged(x, y, x_new, y_new, (i + 1) as nat).0;
    let all = merge_all(x, y, x_new, y_new).0;
    lemma_merged_prefix(x, y, x_new, y_new, (i + 1) as nat, x_new.len());
    if has_match(before, p) {
        let t = choose|t: int| 0 <= t < before.len() && points_match(p, #[trigger] before[t]);
        assert(after == before);
        assert(all[t] == before[t]);
    } else {
        assert(after == before.push(p));
        assert(points_match(p, after[before.len() as int]));
        assert(all[before.len() as int] == p);
    }
}

/// Merging the same incoming points a second time changes nothing, provided
/// none of their coordinates is NaN (a NaN coordinate matches nothing, not
/// even itself, so such a point is appended again on every merge).
pub proof fn lemma_merge_idempotent(
    x: Seq<Seq<u64>>,
    y: Seq<u64>,
    x_new: Seq<Seq<u64>>,
    y_new: Seq<u64>,
)
    requires
        forall|i: int| 0 <= i < x_new.len() ==> is_comparable(#[trigger] x_new[i]),
    ensures
        ({
            let once = merge_all(x, y, x_new, y_new);
            merge_all(once.0, once.1, x_new, y_new) == once
        }),
{
    let once = merge_all(x, y, x_new, y_new);
    assert forall|i: int| 0 <= i < x_new.len() implies has_match(once.0, #[trigger] x_new[i]) by {
        lemma_merged_covers(x, y, x_new, y_new, i);
    }
    lemma_merge_duplicates_unchanged(once.0, once.1, x_new, y_new);
}

/// Whether `p` and `u` match on their common positions.
pub fn point_matches(p: &Vec<u64>, u: &Vec<u64>) -> (r: bool)
    ensures
        r == points_match(p@, u@),
{
    let n: usize = if p.len() < u.len() { p.len() } else { u.len() };
    let mut j: usize = 0;
    while j < n
        invariant
            n <= p.len(),
            n <= u.len(),
            n == p.len() || n == u.len(),
            j <= n,
            forall|t: int| 0 <= t < j ==> same_value(#[trigger] p@[t], u@[t]),
        decreases n - j,
    {
        if !values_equal(p[j], u[j]) {
            return false;
        }
        j = j + 1;
    }
    true
}

/// Whether some point of `set` matches `p`.
pub fn contains_point(set: &Vec<Vec<u64>>, p: &Vec<u64>) -> (r: bool)
    ensures
        r == has_match(view_points(set@), p@),
{
    let mut i: usize = 0;
    while i < set.len()
        invariant
            i <= set.len(),
            forall|t: int| 0 <= t < i ==> !points_match(p@, #[trigger] set@[t]@),
        decreases set.len() - i,
    {
        if point_matches(p, &set[i]) {
            assert(points_match(p@, view_points(set@)[i as int]));
            return true;
        }
        i = i + 1;
    }
    proof {
        if has_match(view_points(set@), p@) {
            let t = choose|t: int|
                0 <= t < set@.len() && points_match(p@, #[trigger] view_points(set@)[t]);
            assert(!points_match(p@, set@[t]@));
        }
    }
    false
}

fn copy_point(p: &Vec<u64>) -> (r: Vec<u64>)
    ensures
        r@ == p@,
{
    let mut r: Vec<u64> = Vec::with_capacity(p.len());
    let mut j: usize = 0;
    while j < p.len()
        invariant
            j <= p.len(),
            r@ == p@.subrange(0, j as int),
        decreases p.len() - j,
    {
        r.push(p[j]);
        j = j + 1;
    }
    assert(r@ =~= p@);
    r
}

/// Appends to the training set `(x, y)` each point of `x_new` that matches
/// no point already in the set (earlier appended ones included), together
/// with the output of `y_new` at the same index. Matching points and their
/// outputs are dropped.
pub fn merge_unique_points(
    x: &mut Vec<Vec<u64>>,
    y: &mut Vec<u64>,
    x_new: &Vec<Vec<u64>>,
    y_new: &Vec<u64>,
)
    requires
        y_new.len() >= x_new.len(),
    ensures
        (view_points(final(x)@), final(y)@) == merge_all(
            view_points(old(x)@),
            old(y)@,
            view_points(x_new@),
            y_new@,
        ),
        final(x)@.len() - old(x)@.len() == final(y)@.len() - old(y)@.len(),
        final(x)@.len() <= old(x)@.len() + x_new@.len(),
        forall|i: int| 0 <= i < old(x)@.len() ==> #[trigger] final(x)@[i] == old(x)@[i],
        forall|i: int| 0 <= i < old(y)@.len() ==> #[trigger] final(y)@[i] == old(y)@[i],
{
    let ghost x0 = view_points(x@);
    let ghost y0 = y@;
    let ghost xs = view_points(x_new@);
    let mut i: usize = 0;
    while i < x_new.len()
        invariant
            i <= x_new.len(),
            y_new.len() >= x_new.len(),
            x0 == view_points(old(x)@),
            y0 == old(y)@,
            xs == view_points(x_new@),
            (view_points(x@), y@) == merged(x0, y0, xs, y_new@, i as nat),
            old(x)@.len() <= x@.len(),
            old(y)@.len() <= y@.len(),
            forall|t: int| 0 <= t < old(x)@.len() ==> #[trigger] x@[t] == old(x)@[t],
            forall|t: int| 0 <= t < old(y)@.len() ==> #[trigger] y@[t] == old(y)@[t],
        decreases x_new.len() - i,
    {
        let dup = contains_point(x, &x_new[i]);
        if !dup {
            let p = copy_point(&x_new[i]);
            x.push(p);
            y.push(y_new[i]);
        }
        assert(view_points(x@) =~= merged(x0, y0, xs, y_new@, (i + 1) as nat).0);
        i = i + 1;
    }
    proof {
        lemma_merged_lengths(x0, y0, xs, y_new@, x_new.len() as nat);
    }
}

} // verus!
