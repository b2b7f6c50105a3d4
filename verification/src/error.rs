use vstd::prelude::*;
use vstd::string::StringExecFns;

verus! {

/// Evaluation error of the `simsym` symbolic engine, with its variants.
#[verifier::external_type_specification]
pub struct ExEvalError(simsym::EvalError);

/// A `simsym` symbol: an index into `simsym`'s process-wide table of names (opaque).
#[verifier::external_type_specification]
#[verifier::external_body]
pub struct ExSymbol(simsym::Symbol);

/// Error of an exact rational power in `simsym`, with its variants.
#[verifier::external_type_specification]
pub struct ExRationalPowError(simsym::rational::RationalPowError);

/// `Display` text of a `simsym` rational power error.
pub open spec fn rational_pow_text(e: simsym::rational::RationalPowError) -> Seq<char> {
    match e {
        simsym::rational::RationalPowError::ZeroToNegativePower => "zero to a negative power"@,
        simsym::rational::RationalPowError::Overflow => "exponent overflow"@,
    }
}

/// What the `Display` text `t` of a `simsym` evaluation error is: fixed by the variant
/// and its words, except the name of an unbound symbol, which stands between the fixed
/// words `"symbol "` and `" is not bound"`.
pub open spec fn eval_error_text_fits(e: simsym::EvalError, t: Seq<char>) -> bool {
    match e {
        simsym::EvalError::DivisionByZero => t == "division by zero"@,
        simsym::EvalError::Undefined(w) => t == "undefined for given values: "@ + w@,
        simsym::EvalError::UnboundSymbol(_) => {
            &&& t.len() >= "symbol "@.len() + " is not bound"@.len()
            &&& "symbol "@.is_prefix_of(t)
            &&& " is not bound"@.is_suffix_of(t)
        },
        simsym::EvalError::Overflow => t == "overflow or unsupported rational operation"@,
        simsym::EvalError::RationalPow(p) => t == rational_pow_text(p),
        simsym::EvalError::CoefficientTooLarge =>
            t == "coefficient does not fit in exact i64 rational evaluation; enable `bigint` or use eval_f64"@,
    }
}

/// `Clone` of `simsym::EvalError`, which is derived and whose fields are all `Copy`
/// or `&'static str`: the clone equals the original.
pub assume_specification[ <simsym::EvalError as Clone>::clone ](e: &simsym::EvalError) -> (res: simsym::EvalError)
    ensures
        res == *e,
;

/// Error while constructing a distribution or sampler.
#[derive(Debug, Clone, PartialEq)]
pub enum BuildError {
    InvalidSupport(&'static str),
    EmptyDiscreteSupport,
    NonPositiveMass,
    NonFiniteValue(&'static str),
    NormalizationFailed,
    SymbolicIntegrationFailed,
    SimsymEval(simsym::EvalError),
    InvalidScale,
    InvalidHistogram,
    TruncationOutOfSupport,
    InvalidDimension,
    InvalidPdfMax,
    TdrBuildFailed,
}

/// The fixed text of an error's message: all of it, or, for the three variants that
/// carry a detail, the part that comes before the detail.
pub open spec fn build_error_lead(e: BuildError) -> Seq<char> {
    match e {
        BuildError::InvalidSupport(_) => "invalid support interval: "@,
        BuildError::EmptyDiscreteSupport => "discrete distribution has no support points"@,
        BuildError::NonPositiveMass => "probability mass must be positive"@,
        BuildError::NonFiniteValue(_) => "non-finite value in "@,
        BuildError::NormalizationFailed => "failed to normalize PDF on support"@,
        BuildError::SymbolicIntegrationFailed => "symbolic integration failed"@,
        BuildError::SimsymEval(_) => "simsym evaluation error: "@,
        BuildError::InvalidScale => "scale must be finite and positive"@,
        BuildError::InvalidHistogram => "invalid histogram edges or counts"@,
        BuildError::TruncationOutOfSupport => "truncation interval must lie inside base support"@,
        BuildError::InvalidDimension => "invalid dimension"@,
        BuildError::InvalidPdfMax => "pdf_max must be finite and positive"@,
        BuildError::TdrBuildFailed =>
            "tdr failed to build hat function (try InvSqrt transform or explicit dpdf)"@,
    }
}

/// The `Display` text of a `simsym::EvalError`, as `format!` writes it.  `thiserror`
/// derives it: each variant's fixed words, the `Undefined` detail, the rational power
/// error's own text, and for an unbound symbol the symbol's name, which `simsym` reads
/// from its process-wide table of names and which is therefore not stated.
#[verifier::external_body]
fn eval_error_text(e: &simsym::EvalError) -> (res: String)
    ensures
        eval_error_text_fits(*e, res@),
{
    format!("{e}")
}

/// A message made of a fixed lead followed by a detail.
pub fn lead_and_detail(lead: &str, detail: &str) -> (res: String)
    ensures
        res@ == lead@ + detail@,
{
    let mut out = String::new();
    out.append(lead);
    out.append(detail);
    out
}

impl From<simsym::EvalError> for BuildError {
    fn from(e: simsym::EvalError) -> (res: Self) {
        BuildError::SimsymEval(e)
    }
}

impl vstd::std_specs::convert::FromSpecImpl<simsym::EvalError> for BuildError {
    open spec fn obeys_from_spec() -> bool {
        true
    }

    open spec fn from_spec(e: simsym::EvalError) -> Self {
        BuildError::SimsymEval(e)
    }
}

impl BuildError {
    /// Human-readable description of the error.
    pub fn message(&self) -> (res: String)
        ensures
            match *self {
                BuildError::InvalidSupport(msg) => res@ == build_error_lead(*self) + msg@,
                BuildError::NonFiniteValue(ctx) => res@ == build_error_lead(*self) + ctx@,
                BuildError::SimsymEval(e) => {
                    &&& res@.len() >= build_error_lead(*self).len()
                    &&& res@ == build_error_lead(*self) + res@.skip(build_error_lead(*self).len() as int)
                    &&& eval_error_text_fits(e, res@.skip(build_error_lead(*self).len() as int))
                },
                _ => res@ == build_error_lead(*self),
            },
    {
        let lead: &str = match self {
            BuildError::InvalidSupport(_) => "invalid support interval: ",
            BuildError::EmptyDiscreteSupport => "discrete distribution has no support points",
            BuildError::NonPositiveMass => "probability mass must be positive",
            BuildError::NonFiniteValue(_) => "non-finite value in ",
            BuildError::NormalizationFailed => "failed to normalize PDF on support",
            BuildError::SymbolicIntegrationFailed => "symbolic integration failed",
            BuildError::SimsymEval(_) => "simsym evaluation error: ",
            BuildError::InvalidScale => "scale must be finite and positive",
            BuildError::InvalidHistogram => "invalid histogram edges or counts",
            BuildError::TruncationOutOfSupport => "truncation interval must lie inside base support",
            BuildError::InvalidDimension => "invalid dimension",
            BuildError::InvalidPdfMax => "pdf_max must be finite and positive",
            BuildError::TdrBuildFailed =>
                "tdr failed to build hat function (try InvSqrt transform or explicit dpdf)",
        };
        match self {
            BuildError::InvalidSupport(msg) => lead_and_detail(lead, msg),
            BuildError::NonFiniteValue(ctx) => lead_and_detail(lead, ctx),
            BuildError::SimsymEval(e) => {
                let detail = eval_error_text(e);
                let out = lead_and_detail(lead, detail.as_str());
                assert(out@.skip(lead@.len() as int) =~= detail@);
                out
            },
            _ => String::from_str(lead),
        }
    }
}

/// Error during sampling (e.g. invalid quantile).
///
/// The two variants that report a rejected floating-point argument carry it as its
/// IEEE-754 bit pattern (`f64::to_bits`), so that the value is kept exactly.  Equality
/// on this type compares those bit patterns: two NaNs with the same bits are equal, and
/// `0.0` differs from `-0.0`.
#[derive(Debug, Clone, Copy, PartialEq, Eq)]
pub enum SampleError {
    QuantileOutOfRange { u_bits: u64 },
    PpfFailed,
    PdfRequired,
    IntegrationFailed,
    InvalidConfidence { confidence_bits: u64 },
    RejectionSamplingFailed,
    TdrBuildFailed,
    TdrSamplingFailed,
    McmcNotInitialized,
    McmcFailed,
}

/// The message of a sampling error that carries no floating-point value; `None` for
/// the two variants that report a rejected value, whose message writes that value.
pub open spec fn sample_error_text(e: SampleError) -> Option<Seq<char>> {
    match e {
        SampleError::QuantileOutOfRange { .. } => None,
        SampleError::PpfFailed => Some("failed to invert CDF"@),
        SampleError::PdfRequired => Some("operation requires an underlying PDF"@),
        SampleError::IntegrationFailed => Some("numerical integration failed"@),
        SampleError::InvalidConfidence { .. } => None,
        SampleError::RejectionSamplingFailed => Some("rejection sampler failed to accept"@),
        SampleError::TdrBuildFailed => Some("tdr failed to build hat function"@),
        SampleError::TdrSamplingFailed => Some("tdr failed to draw a sample"@),
        SampleError::McmcNotInitialized => Some("mcmc sampler not initialized (call init)"@),
        SampleError::McmcFailed => Some("mcmc sampler failed"@),
    }
}

impl SampleError {
    /// Fixed message of the error, for the variants that carry no floating-point value.
    pub fn fixed_message(&self) -> (res: Option<&'static str>)
        ensures
            match sample_error_text(*self) {
                Some(t) => res is Some && res->0@ == t,
                None => res is None,
            },
    {
        match self {
            SampleError::QuantileOutOfRange { .. } => None,
            SampleError::PpfFailed => Some("failed to invert CDF"),
            SampleError::PdfRequired => Some("operation requires an underlying PDF"),
            SampleError::IntegrationFailed => Some("numerical integration failed"),
            SampleError::InvalidConfidence { .. } => None,
            SampleError::RejectionSamplingFailed => Some("rejection sampler failed to accept"),
            SampleError::TdrBuildFailed => Some("tdr failed to build hat function"),
            SampleError::TdrSamplingFailed => Some("tdr failed to draw a sample"),
            SampleError::McmcNotInitialized => Some("mcmc sampler not initialized (call init)"),
            SampleError::McmcFailed => Some("mcmc sampler failed"),
        }
    }
}


/// The fixed messages of the construction errors.
pub proof fn build_error_texts(msg: &'static str, ctx: &'static str)
    ensures
        build_error_lead(BuildError::InvalidSupport(msg)) == "invalid support interval: "@,
        build_error_lead(BuildError::EmptyDiscreteSupport) == "discrete distribution has no support points"@,
        build_error_lead(BuildError::NonPositiveMass) == "probability mass must be positive"@,
        build_error_lead(BuildError::NonFiniteValue(ctx)) == "non-finite value in "@,
        build_error_lead(BuildError::NormalizationFailed) == "failed to normalize PDF on support"@,
        build_error_lead(BuildError::SymbolicIntegrationFailed) == "symbolic integration failed"@,
        build_error_lead(BuildError::InvalidScale) == "scale must be finite and positive"@,
        build_error_lead(BuildError::InvalidHistogram) == "invalid histogram edges or counts"@,
        build_error_lead(BuildError::TruncationOutOfSupport)
            == "truncation interval must lie inside base support"@,
        build_error_lead(BuildError::InvalidDimension) == "invalid dimension"@,
        build_error_lead(BuildError::InvalidPdfMax) == "pdf_max must be finite and positive"@,
        build_error_lead(BuildError::TdrBuildFailed)
            == "tdr failed to build hat function (try InvSqrt transform or explicit dpdf)"@,
{
}

/// The fixed messages of the sampling errors; the two that report a rejected value have
/// none.
pub proof fn sample_error_texts(u_bits: u64, confidence_bits: u64)
    ensures
        sample_error_text(SampleError::QuantileOutOfRange { u_bits }) is None,
        sample_error_text(SampleError::InvalidConfidence { confidence_bits }) is None,
        sample_error_text(SampleError::PpfFailed) == Some("failed to invert CDF"@),
        sample_error_text(SampleError::PdfRequired) == Some("operation requires an underlying PDF"@),
        sample_error_text(SampleError::IntegrationFailed) == Some("numerical integration failed"@),
        sample_error_text(SampleError::RejectionSamplingFailed)
            == Some("rejection sampler failed to accept"@),
        sample_error_text(SampleError::TdrBuildFailed) == Some("tdr failed to build hat function"@),
        sample_error_text(SampleError::TdrSamplingFailed) == Some("tdr failed to draw a sample"@),
        sample_error_text(SampleError::McmcNotInitialized)
            == Some("mcmc sampler not initialized (call init)"@),
        sample_error_text(SampleError::McmcFailed) == Some("mcmc sampler failed"@),
{
}

} // verus!
