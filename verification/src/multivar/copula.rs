use vstd::prelude::*;

verus! {

/// Error building a Gaussian copula.
#[derive(Debug, Clone, Copy, PartialEq, Eq)]
pub enum CopulaError {
    InvalidCorrelation,
    DimensionMismatch,
}

/// A matrix, given as its rows, is square and not empty.
pub open spec fn is_square<T>(rows: Seq<Vec<T>>) -> bool {
    &&& rows.len() > 0
    &&& forall|i: int| 0 <= i < rows.len() ==> (#[trigger] rows[i])@.len() == rows.len()
}

/// The shape check that `GaussianCopula::new` makes before factoring a correlation
/// matrix: it must have at least one row and every row as many entries as there are
/// rows.
pub fn check_correlation_shape<T>(corr: &Vec<Vec<T>>) -> (res: Result<(), CopulaError>)
    ensures
        res is Ok <==> is_square(corr@),
        res is Err ==> res == Err::<(), CopulaError>(CopulaError::InvalidCorrelation),
{
    let n = corr.len();
    if n == 0 {
        return Err(CopulaError::InvalidCorrelation);
    }
    let mut i: usize = 0;
    while i < n
        invariant
            n == corr@.len(),
            0 <= i <= n,
            forall|j: int| 0 <= j < i ==> (#[trigger] corr@[j])@.len() == n,
        decreases n - i,
    {
        if corr[i].len() != n {
            return Err(CopulaError::InvalidCorrelation);
        }
        i = i + 1;
    }
    Ok(())
}


/// A matrix with no rows, or with a row whose length differs from the number of rows,
/// is not square; one whose every row has as many entries as there are rows is.
pub proof fn square_shapes<T>(rows: Seq<Vec<T>>, i: int)
    ensures
        rows.len() == 0 ==> !is_square(rows),
        0 <= i < rows.len() && rows[i]@.len() != rows.len() ==> !is_square(rows),
        rows.len() > 0 && (forall|j: int| 0 <= j < rows.len() ==> (#[trigger] rows[j])@.len()
            == rows.len()) ==> is_square(rows),
{
}

} // verus!
