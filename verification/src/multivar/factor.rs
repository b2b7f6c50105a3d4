use vstd::prelude::*;

verus! {

/// Sampler for a conditional factorization `x0 ~ f0()`, `x1 ~ f1(x0)`, ...,
/// `x_{n-1} ~ f_{n-1}(x0..x_{n-2})`, drawn one coordinate at a time from `inner`.
pub struct ConditionalFactorSampler<F> {
    inner: F,
}

impl<F> ConditionalFactorSampler<F> {
    /// The factorization the sampler draws from.
    pub closed spec fn factorization(&self) -> F {
        self.inner
    }

    pub fn new(inner: F) -> (res: Self)
        ensures
            res.factorization() == inner,
    {
        Self { inner }
    }

    /// Borrow the factorization.
    pub fn inner(&self) -> (res: &F)
        ensures
            *res == self.factorization(),
    {
        &self.inner
    }
}

} // verus!
