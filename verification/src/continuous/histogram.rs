use crate::error::BuildError;
use vstd::prelude::*;

verus! {

/// The verdict of `HistogramPdf::new` on its input, from the two lengths and the facts
/// it reads of the values: whether the edges are finite and strictly increasing,
/// whether every count is finite and non-negative, and whether the total count is
/// positive.  There must be at least two edges and one count fewer than edges.
pub fn check_histogram(
    n_edges: usize,
    n_counts: usize,
    edges_ok: bool,
    counts_ok: bool,
    total_positive: bool,
) -> (res: Result<(), BuildError>)
    ensures
        res == (if n_edges < 2 || n_counts + 1 != n_edges {
            Err(BuildError::InvalidHistogram)
        } else if !edges_ok || !counts_ok {
            Err(BuildError::InvalidHistogram)
        } else if !total_positive {
            Err(BuildError::NormalizationFailed)
        } else {
            Ok(())
        }),
{
    if n_edges < 2 || n_counts != n_edges - 1 {
        return Err(BuildError::InvalidHistogram);
    }
    if !edges_ok || !counts_ok {
        return Err(BuildError::InvalidHistogram);
    }
    if !total_positive {
        return Err(BuildError::NormalizationFailed);
    }
    Ok(())
}

} // verus!
