use vstd::prelude::*;

verus! {

/// Number of knots in a Hermite PPF table built with `grid_size`: at least four.
pub fn knot_count(grid_size: usize) -> (n: usize)
    ensures
        n == if grid_size < 4 { 4 } else { grid_size },
{
    if grid_size < 4 { 4 } else { grid_size }
}

/// Left knot of the segment on which the table interpolates a quantile `u`, from the
/// partition point `p` (the number of knots strictly below `u`) and the knot count `n`:
/// the knot just before `p`, kept so that a right knot follows it.
pub fn segment_index(p: usize, n: usize) -> (i: usize)
    requires
        n >= 2,
    ensures
        i == if p == 0 {
            0
        } else if p - 1 > n - 2 {
            (n - 2) as int
        } else {
            p - 1
        },
        i + 1 < n,
{
    let below = if p == 0 { 0 } else { p - 1 };
    if below > n - 2 { n - 2 } else { below }
}

} // verus!
