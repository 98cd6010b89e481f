//! The decisions of the dense LU solver with partial pivoting: whether a
//! system is solvable in shape, and which row becomes the pivot.
use vstd::prelude::*;
use crate::error::RbfError;
use crate::ieee::{abs_greater, is_nan, is_zero, magnitude, abs_exceeds, is_zero_value};

verus! {

/// Checks that a linear system with `rows` matrix rows and a right-hand side
/// of `rhs_len` entries is solvable in shape.
pub fn check_system_size(rows: usize, rhs_len: usize) -> (r: Result<(), RbfError>)
    ensures
        r == (if rows == rhs_len { Ok(()) } else { Err(RbfError::SizeMismatch) }),
{
    if rows != rhs_len {
        Err(RbfError::SizeMismatch)
    } else {
        Ok(())
    }
}

/// The row that a scan of `column` from row `k` up to (not including) row
/// `end` settles on: it starts at row `k` and moves to a later row only when
/// that row's entry is strictly larger in absolute value.
pub open spec fn pivot_scan(column: Seq<u64>, k: int, end: int) -> int
    decreases end - k,
{
    if end <= k + 1 {
        k
    } else {
        let m = pivot_scan(column, k, end - 1);
        if abs_greater(column[end - 1], column[m]) {
            end - 1
        } else {
            m
        }
    }
}

/// No entry of `column` from row `k` on is NaN.
pub open spec fn no_nan_from(column: Seq<u64>, k: int) -> bool {
    forall|i: int| k <= i < column.len() ==> !is_nan(#[trigger] column[i])
}

proof fn lemma_pivot_scan_bounds(column: Seq<u64>, k: int, end: int)
    requires
        0 <= k < end,
    ensures
        k <= pivot_scan(column, k, end) < end,
    decreases end - k,
{
    if end > k + 1 {
        lemma_pivot_scan_bounds(column, k, end - 1);
    }
}

/// Without NaN, the scan finds the first entry of greatest absolute value.
proof fn lemma_pivot_scan_first_maximum(column: Seq<u64>, k: int, end: int)
    requires
        0 <= k < end <= column.len(),
        no_nan_from(column, k),
    ensures
        forall|i: int|
            k <= i < end ==> magnitude(#[trigger] column[i]) <= magnitude(
                column[pivot_scan(column, k, end)],
            ),
        forall|i: int|
            k <= i < pivot_scan(column, k, end) ==> magnitude(#[trigger] column[i]) < magnitude(
                column[pivot_scan(column, k, end)],
            ),
    decreases end - k,
{
    lemma_pivot_scan_bounds(column, k, end);
    if end > k + 1 {
        lemma_pivot_scan_first_maximum(column, k, end - 1);
        lemma_pivot_scan_bounds(column, k, end - 1);
        assert(!is_nan(column[end - 1]));
        assert(!is_nan(column[pivot_scan(column, k, end - 1)]));
    }
}

/// Chooses the pivot row for column `k` of a matrix whose column `k` is
/// `column`: the first row at or below `k` whose entry has the greatest
/// absolute value. Fails with `SingularMatrix` when that entry is zero.
pub fn select_pivot(column: &Vec<u64>, k: usize) -> (r: Result<usize, RbfError>)
    requires
        k < column.len(),
    ensures
        ({
            let p = pivot_scan(column@, k as int, column.len() as int);
            &&& k <= p < column.len()
            &&& r == (if is_zero(column@[p]) {
                Err(RbfError::SingularMatrix)
            } else {
                Ok(p as usize)
            })
            &&& no_nan_from(column@, k as int) ==> {
                &&& forall|i: int|
                    k <= i < column.len() ==> magnitude(#[trigger] column@[i]) <= magnitude(
                        column@[p],
                    )
                &&& forall|i: int|
                    k <= i < p ==> magnitude(#[trigger] column@[i]) < magnitude(column@[p])
                &&& (r is Err <==> forall|i: int| k <= i < column.len() ==> is_zero(
                    #[trigger] column@[i],
                ))
            }
        }),
{
    let n: usize = column.len();
    let mut max_row: usize = k;
    let mut i: usize = k + 1;
    while i < n
        invariant
            k < i <= n,
            n == column.len(),
            max_row as int == pivot_scan(column@, k as int, i as int),
            k <= max_row < i,
        decreases n - i,
    {
        if abs_exceeds(column[i], column[max_row]) {
            max_row = i;
        }
        i = i + 1;
    }
    proof {
        lemma_pivot_scan_bounds(column@, k as int, n as int);
        if no_nan_from(column@, k as int) {
            lemma_pivot_scan_first_maximum(column@, k as int, n as int);
        }
    }
    if is_zero_value(column[max_row]) {
        Err(RbfError::SingularMatrix)
    } else {
        Ok(max_row)
    }
}

} // verus!
