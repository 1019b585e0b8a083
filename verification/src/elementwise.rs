//! Element-wise addition of two integer vectors into a destination vector.

use vstd::prelude::*;
use vstd::pervasive::VecAdditionalExecFns;

verus! {

/// Writes `a[i] + b[i]` into `c[i]` for every index of `c`.
///
/// `a` and `b` must cover every index of `c`, and each sum must fit in an
/// `i32`.
pub fn square(a: &Vec<i32>, b: &Vec<i32>, c: &mut Vec<i32>)
    requires
        old(c).len() <= a.len(),
        old(c).len() <= b.len(),
        forall|i: int| 0 <= i < old(c).len() ==> i32::MIN <= #[trigger] a[i] + b[i] <= i32::MAX,
    ensures
        final(c).len() == old(c).len(),
        forall|i: int| 0 <= i < final(c).len() ==> final(c)[i] == a[i] + b[i],
{
    let mut i: usize = 0;
    while i < c.len()
        invariant
            i <= c.len(),
            c.len() == old(c).len(),
            a.len() >= c.len(),
            b.len() >= c.len(),
            forall|j: int| 0 <= j < c.len() ==> i32::MIN <= #[trigger] a[j] + b[j] <= i32::MAX,
            forall|j: int| 0 <= j < i ==> c[j] == a[j] + b[j],
        decreases c.len() - i,
    {
        c.set(i, a[i] + b[i]);
        i = i + 1;
    }
}

/// Writes `a[i] + b[i]` into `c[i]` for every index of `c`; the same scalar
/// loop as [`square`], kept as a separate entry point.
pub fn square_basic(a: &Vec<i32>, b: &Vec<i32>, c: &mut Vec<i32>)
    requires
        old(c).len() <= a.len(),
        old(c).len() <= b.len(),
        forall|i: int| 0 <= i < old(c).len() ==> i32::MIN <= #[trigger] a[i] + b[i] <= i32::MAX,
    ensures
        final(c).len() == old(c).len(),
        forall|i: int| 0 <= i < final(c).len() ==> final(c)[i] == a[i] + b[i],
{
    let mut i: usize = 0;
    while i < c.len()
        invariant
            i <= c.len(),
            c.len() == old(c).len(),
            a.len() >= c.len(),
            b.len() >= c.len(),
            forall|j: int| 0 <= j < c.len() ==> i32::MIN <= #[trigger] a[j] + b[j] <= i32::MAX,
            forall|j: int| 0 <= j < i ==> c[j] == a[j] + b[j],
        decreases c.len() - i,
    {
        c.set(i, a[i] + b[i]);
        i = i + 1;
    }
}

} // verus!
