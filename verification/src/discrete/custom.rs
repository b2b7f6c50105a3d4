use crate::error::BuildError;
use vstd::prelude::*;

verus! {

/// The verdict of `DiscreteSampler::from_pmf` on its input, from the two lengths and
/// the facts it reads of the masses: whether every mass is finite and non-negative,
/// and whether their sum is finite and positive.  The checks come in that order: an
/// empty side, a length mismatch, a bad mass, a bad total.
pub fn check_pmf(n_points: usize, n_pmf: usize, masses_ok: bool, sum_ok: bool) -> (res: Result<(), BuildError>)
    ensures
        res == (if n_points == 0 || n_pmf == 0 {
            Err(BuildError::EmptyDiscreteSupport)
        } else if n_points != n_pmf {
            Err(BuildError::InvalidSupport("points and pmf must have the same length"))
        } else if !masses_ok {
            Err(BuildError::NonPositiveMass)
        } else if !sum_ok {
            Err(BuildError::NormalizationFailed)
        } else {
            Ok(())
        }),
{
    if n_points == 0 || n_pmf == 0 {
        return Err(BuildError::EmptyDiscreteSupport);
    }
    if n_points != n_pmf {
        return Err(BuildError::InvalidSupport("points and pmf must have the same length"));
    }
    if !masses_ok {
        return Err(BuildError::NonPositiveMass);
    }
    if !sum_ok {
        return Err(BuildError::NormalizationFailed);
    }
    Ok(())
}

} // verus!
