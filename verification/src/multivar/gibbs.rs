use vstd::prelude::*;

verus! {

/// Options of the Gibbs sampler.
#[derive(Debug, Clone, Copy)]
pub struct GibbsOptions {
    /// Full sweeps over all coordinates made for each sample.
    pub sweeps_per_sample: usize,
}

impl Default for GibbsOptions {
    fn default() -> (res: Self)
        ensures
            res.sweeps_per_sample == 1,
    {
        Self { sweeps_per_sample: 1 }
    }
}

} // verus!
