//! simsam: the integer, shape and dispatch logic of a library that samples from
//! custom discrete and continuous distributions, with its error types.

pub mod continuous;
pub mod discrete;
pub mod error;
pub mod multivar;
pub mod support;

pub use continuous::histogram::check_histogram;
pub use continuous::hermite::{knot_count, segment_index};
pub use continuous::sampler::{PpfMethod, PpfRoute, SampleMethod, SampleRoute, SamplingBackend};
pub use continuous::tdr::{construction_grid, seg_index, TdrTransform};
pub use discrete::custom::check_pmf;
pub use error::{BuildError, SampleError};
pub use multivar::cdf_mc::CdfMcOptions;
pub use multivar::copula::{check_correlation_shape, CopulaError};
pub use multivar::factor::ConditionalFactorSampler;
pub use multivar::gibbs::GibbsOptions;
pub use multivar::mcmc::ChainState;
pub use multivar::rejection::RejectionOptions;
pub use multivar::support::{check_dim, check_hyper_rect, check_nonzero_dim};
pub use support::check_interval;
