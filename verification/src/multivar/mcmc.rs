use crate::error::SampleError;
use vstd::prelude::*;

verus! {

/// Current point of a Markov chain sampler: absent until the chain is initialized,
/// afterwards the last accepted point.
pub struct ChainState<S> {
    current: Option<S>,
}

impl<S> ChainState<S> {
    /// The chain's current point, if it has been initialized.
    pub closed spec fn point(&self) -> Option<S> {
        self.current
    }

    /// A chain that has not been initialized.
    pub fn new() -> (res: Self)
        ensures
            res.point() is None,
    {
        ChainState { current: None }
    }

    pub fn is_initialized(&self) -> (res: bool)
        ensures
            res == self.point() is Some,
    {
        self.current.is_some()
    }

    /// Move the chain to `s`: its starting point, or an accepted proposal.
    pub fn move_to(&mut self, s: S)
        ensures
            final(self).point() == Some(s),
    {
        self.current = Some(s);
    }

    /// The current point; sampling from a chain that was never initialized is an error.
    pub fn current(&self) -> (res: Result<&S, SampleError>)
        ensures
            match self.point() {
                Some(s) => res == Ok::<&S, SampleError>(&s),
                None => res == Err::<&S, SampleError>(SampleError::McmcNotInitialized),
            },
    {
        match &self.current {
            Some(s) => Ok(s),
            None => Err(SampleError::McmcNotInitialized),
        }
    }
}

} // verus!
