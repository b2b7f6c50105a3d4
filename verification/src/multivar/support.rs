use crate::error::BuildError;
use vstd::prelude::*;

verus! {

/// Whether one coordinate `(lo[i], hi[i])` of a hyper-rectangle passes: the first
/// component says that both bounds are finite, the second that `lo[i] < hi[i]`.
pub open spec fn coord_ok(c: (bool, bool)) -> bool {
    c.0 && c.1
}

/// The error that a failing coordinate is reported with: non-finite bounds first.
pub open spec fn coord_error(c: (bool, bool)) -> BuildError {
    if !c.0 {
        BuildError::NonFiniteValue("hyper-rect bounds")
    } else {
        BuildError::InvalidSupport("each lo must be < hi")
    }
}

/// The verdict of `HyperRect::validate` on bounds `lo` and `hi`, from their lengths and
/// from `coords[i]` = (both bounds of coordinate `i` finite, `lo[i] < hi[i]`) for each
/// coordinate in order.  An empty side is reported first, then a length mismatch, then
/// the first coordinate that fails.
pub fn check_hyper_rect(lo_len: usize, hi_len: usize, coords: &[(bool, bool)]) -> (res: Result<(), BuildError>)
    ensures
        lo_len == 0 || hi_len == 0 ==> res == Err::<(), BuildError>(
            BuildError::InvalidSupport("hyper-rect cannot be empty"),
        ),
        lo_len != 0 && hi_len != 0 && lo_len != hi_len ==> res == Err::<(), BuildError>(
            BuildError::InvalidSupport("hyper-rect lo/hi must have same dimension"),
        ),
        lo_len != 0 && lo_len == hi_len ==> {
            &&& (forall|i: int| 0 <= i < coords@.len() ==> coord_ok(#[trigger] coords@[i])) ==> res
                == Ok::<(), BuildError>(())
            &&& forall|i: int|
                0 <= i < coords@.len() && !coord_ok(#[trigger] coords@[i]) && (forall|j: int|
                    0 <= j < i ==> coord_ok(coords@[j])) ==> res == Err::<(), BuildError>(
                    coord_error(coords@[i]),
                )
        },
{
    if lo_len == 0 || hi_len == 0 {
        return Err(BuildError::InvalidSupport("hyper-rect cannot be empty"));
    }
    if lo_len != hi_len {
        return Err(BuildError::InvalidSupport("hyper-rect lo/hi must have same dimension"));
    }
    let mut i: usize = 0;
    while i < coords.len()
        invariant
            lo_len != 0,
            lo_len == hi_len,
            0 <= i <= coords@.len(),
            forall|j: int| 0 <= j < i ==> coord_ok(#[trigger] coords@[j]),
        decreases coords@.len() - i,
    {
        let (finite, ordered) = coords[i];
        if !finite {
            return Err(BuildError::NonFiniteValue("hyper-rect bounds"));
        }
        if !ordered {
            return Err(BuildError::InvalidSupport("each lo must be < hi"));
        }
        i = i + 1;
    }
    Ok(())
}

/// A length that must equal a dimension: `Ok` when `n == dim`, otherwise the caller's
/// error `err`.
pub fn check_dim<E>(n: usize, dim: usize, err: E) -> (res: Result<(), E>)
    ensures
        n == dim ==> res is Ok,
        n != dim ==> res == Err::<(), E>(err),
{
    if n == dim {
        Ok(())
    } else {
        Err(err)
    }
}

/// A dimension that must be positive: `Ok` when `dim > 0`, otherwise the caller's
/// error `err`.
pub fn check_nonzero_dim<E>(dim: usize, err: E) -> (res: Result<(), E>)
    ensures
        dim > 0 ==> res is Ok,
        dim == 0 ==> res == Err::<(), E>(err),
{
    if dim > 0 {
        Ok(())
    } else {
        Err(err)
    }
}


/// A coordinate passes exactly when both bounds are finite and `lo < hi`; a failing
/// one with a non-finite bound is reported as such, and otherwise as misordered.
pub proof fn coord_verdicts(finite: bool, ordered: bool)
    ensures
        coord_ok((finite, ordered)) == (finite && ordered),
        !finite ==> coord_error((finite, ordered)) == BuildError::NonFiniteValue("hyper-rect bounds"),
        finite ==> coord_error((finite, ordered)) == BuildError::InvalidSupport("each lo must be < hi"),
{
}

} // verus!
