pub mod hermite;
pub mod histogram;
pub mod sampler;
pub mod tdr;
