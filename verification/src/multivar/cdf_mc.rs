use vstd::prelude::*;

verus! {

/// Sample counts of the Monte-Carlo normalization and CDF estimates.
#[derive(Debug, Clone, Copy)]
pub struct CdfMcOptions {
    pub normalization_samples: usize,
    pub cdf_samples: usize,
}

impl Default for CdfMcOptions {
    fn default() -> (res: Self)
        ensures
            res.normalization_samples == 50_000,
            res.cdf_samples == 50_000,
    {
        Self { normalization_samples: 50_000, cdf_samples: 50_000 }
    }
}

impl CdfMcOptions {
    /// Draws used for the normalization estimate: the configured count, at least one.
    pub fn normalization_draws(&self) -> (n: usize)
        ensures
            n == if self.normalization_samples == 0 { 1 } else { self.normalization_samples },
    {
        if self.normalization_samples == 0 { 1 } else { self.normalization_samples }
    }

    /// Draws used for a CDF estimate: the configured count, at least one.
    pub fn cdf_draws(&self) -> (n: usize)
        ensures
            n == if self.cdf_samples == 0 { 1 } else { self.cdf_samples },
    {
        if self.cdf_samples == 0 { 1 } else { self.cdf_samples }
    }
}

} // verus!
