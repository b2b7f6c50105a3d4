use vstd::prelude::*;

verus! {

/// Options of the N-D rejection sampler.
#[derive(Debug, Clone, Copy)]
pub struct RejectionOptions {
    /// Maximum number of proposal draws per sample.
    pub max_trials: usize,
}

impl Default for RejectionOptions {
    fn default() -> (res: Self)
        ensures
            res.max_trials == 100_000,
    {
        Self { max_trials: 100_000 }
    }
}

} // verus!
