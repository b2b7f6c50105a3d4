pub mod cdf_mc;
pub mod copula;
pub mod factor;
pub mod gibbs;
pub mod mcmc;
pub mod rejection;
pub mod support;
