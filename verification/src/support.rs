use crate::error::BuildError;
use vstd::prelude::*;

verus! {

/// The verdict of `Interval::validate` on a support `[lo, hi]`, from the two facts it
/// reads: whether both bounds are finite, and whether `lo < hi`.  Non-finite bounds are
/// reported before misordered ones.
pub fn check_interval(bounds_finite: bool, lo_below_hi: bool) -> (res: Result<(), BuildError>)
    ensures
        res == (if !bounds_finite {
            Err(BuildError::NonFiniteValue("support bounds"))
        } else if !lo_below_hi {
            Err(BuildError::InvalidSupport("lo must be strictly less than hi"))
        } else {
            Ok(())
        }),
{
    if !bounds_finite {
        return Err(BuildError::NonFiniteValue("support bounds"));
    }
    if !lo_below_hi {
        return Err(BuildError::InvalidSupport("lo must be strictly less than hi"));
    }
    Ok(())
}

} // verus!
