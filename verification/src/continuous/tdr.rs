use vstd::prelude::*;

verus! {

/// Transformation of the density used by TDR: `log` (c = 0) or `1/sqrt` (c = -0.5).
#[derive(Debug, Clone, Copy, PartialEq, Eq)]
pub enum TdrTransform {
    Log,
    InvSqrt,
}

impl Default for TdrTransform {
    fn default() -> (res: Self)
        ensures
            res == TdrTransform::Log,
    {
        TdrTransform::Log
    }
}

/// Number of evenly spaced construction points at which the hat is built from the
/// PDF: with the `1/sqrt` transform at least 32 (they locate the PDF's maximum for a
/// constant hat), with `log` at least 4 (the tangent points).
pub fn construction_grid(transform: TdrTransform, construction_points: usize) -> (n: usize)
    ensures
        n == match transform {
            TdrTransform::InvSqrt => if construction_points < 32 { 32 } else { construction_points },
            TdrTransform::Log => if construction_points < 4 { 4 } else { construction_points },
        },
{
    match transform {
        TdrTransform::InvSqrt => if construction_points < 32 { 32 } else { construction_points },
        TdrTransform::Log => if construction_points < 4 { 4 } else { construction_points },
    }
}

/// Segment of the hat that a point lies in, from the result of searching the sorted
/// breakpoints `z_0 <= ... <= z_{m-1}` for it (`Ok` at a breakpoint, `Err` at the
/// insertion point): segment `i` spans `[z_{i-1}, z_i)`, so a point on breakpoint `j`
/// belongs to segment `j + 1`.
pub fn seg_index(search: Result<usize, usize>) -> (i: usize)
    requires
        search matches Ok(j) ==> j < usize::MAX,
    ensures
        i == match search {
            Ok(j) => j + 1,
            Err(j) => j as int,
        },
{
    match search {
        Ok(j) => j + 1,
        Err(j) => j,
    }
}

} // verus!
