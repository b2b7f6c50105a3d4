use simsam::{BuildError, SampleError};

#[test]
fn build_error_messages_fixed() {
    let cases = [
        (BuildError::EmptyDiscreteSupport, "discrete distribution has no support points"),
        (BuildError::NonPositiveMass, "probability mass must be positive"),
        (BuildError::NormalizationFailed, "failed to normalize PDF on support"),
        (BuildError::SymbolicIntegrationFailed, "symbolic integration failed"),
        (BuildError::InvalidScale, "scale must be finite and positive"),
        (BuildError::InvalidHistogram, "invalid histogram edges or counts"),
        (
            BuildError::TruncationOutOfSupport,
            "truncation interval must lie inside base support",
        ),
        (BuildError::InvalidDimension, "invalid dimension"),
        (BuildError::InvalidPdfMax, "pdf_max must be finite and positive"),
        (
            BuildError::TdrBuildFailed,
            "tdr failed to build hat function (try InvSqrt transform or explicit dpdf)",
        ),
    ];
    for (e, text) in cases.iter() {
        assert_eq!(e.message(), text.to_string());
    }
}

#[test]
fn build_error_messages_with_detail() {
    let e = BuildError::InvalidSupport("lo must be strictly less than hi");
    assert_eq!(e.message(), "invalid support interval: lo must be strictly less than hi");
    let e = BuildError::NonFiniteValue("support bounds");
    assert_eq!(e.message(), "non-finite value in support bounds");
}

#[test]
fn build_error_message_of_simsym_error() {
    let e = BuildError::SimsymEval(simsym::EvalError::DivisionByZero);
    assert_eq!(e.message(), "simsym evaluation error: division by zero");
    let e: BuildError = simsym::EvalError::Overflow.into();
    assert_eq!(e, BuildError::SimsymEval(simsym::EvalError::Overflow));
    assert_eq!(
        e.message(),
        "simsym evaluation error: overflow or unsupported rational operation"
    );
}

#[test]
fn build_error_clone_keeps_value() {
    let e = BuildError::SimsymEval(simsym::EvalError::Undefined("ln of non-positive"));
    assert_eq!(e.clone(), e);
}

#[test]
fn sample_error_keeps_rejected_quantile_bits() {
    let u = 1.5f64;
    let e = SampleError::QuantileOutOfRange { u_bits: u.to_bits() };
    match e {
        SampleError::QuantileOutOfRange { u_bits } => assert_eq!(f64::from_bits(u_bits), 1.5),
        _ => panic!("wrong variant"),
    }
    assert_ne!(e, SampleError::PpfFailed);
}

#[test]
fn build_error_messages_of_each_simsym_error() {
    let undefined = BuildError::SimsymEval(simsym::EvalError::Undefined("ln of non-positive"));
    assert_eq!(
        undefined.message(),
        "simsym evaluation error: undefined for given values: ln of non-positive"
    );
    let pow = BuildError::SimsymEval(simsym::EvalError::RationalPow(
        simsym::rational::RationalPowError::ZeroToNegativePower,
    ));
    assert_eq!(pow.message(), "simsym evaluation error: zero to a negative power");
    let x = simsym::symbol("x");
    let unbound = BuildError::SimsymEval(simsym::EvalError::UnboundSymbol(x));
    assert_eq!(unbound.message(), "simsym evaluation error: symbol x is not bound");
}

#[test]
fn lead_followed_by_detail() {
    assert_eq!(simsam::error::lead_and_detail("abc: ", "def"), "abc: def");
    assert_eq!(simsam::error::lead_and_detail("", ""), "");
}

#[test]
fn sample_error_fixed_messages() {
    assert_eq!(SampleError::PpfFailed.fixed_message(), Some("failed to invert CDF"));
    assert_eq!(
        SampleError::McmcNotInitialized.fixed_message(),
        Some("mcmc sampler not initialized (call init)")
    );
    assert_eq!(SampleError::McmcFailed.fixed_message(), Some("mcmc sampler failed"));
    assert_eq!(SampleError::QuantileOutOfRange { u_bits: 0 }.fixed_message(), None);
    assert_eq!(SampleError::InvalidConfidence { confidence_bits: 0 }.fixed_message(), None);
}
