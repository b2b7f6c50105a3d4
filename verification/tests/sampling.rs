use simsam::{
    construction_grid, knot_count, seg_index, segment_index, BuildError, CdfMcOptions,
    ConditionalFactorSampler, GibbsOptions, PpfMethod, PpfRoute, RejectionOptions,
    SampleError, SampleMethod, SampleRoute, SamplingBackend, TdrTransform,
};

#[test]
fn defaults() {
    assert_eq!(PpfMethod::default(), PpfMethod::Bisection);
    assert_eq!(TdrTransform::default(), TdrTransform::Log);
    assert_eq!(GibbsOptions::default().sweeps_per_sample, 1);
    assert_eq!(RejectionOptions::default().max_trials, 100_000);
    let o = CdfMcOptions::default();
    assert_eq!(o.normalization_samples, 50_000);
    assert_eq!(o.cdf_samples, 50_000);
    assert!(matches!(
        SampleMethod::<u8>::default(),
        SampleMethod::Inverse(PpfMethod::Bisection)
    ));
}

#[test]
fn cdf_mc_draws_at_least_one() {
    let o = CdfMcOptions { normalization_samples: 0, cdf_samples: 7 };
    assert_eq!(o.normalization_draws(), 1);
    assert_eq!(o.cdf_draws(), 7);
}

#[test]
fn ppf_method_under_each_sample_method() {
    // Statistics always invert the CDF, even when TDR samples.
    assert_eq!(SampleMethod::Tdr(5u8).ppf_method(), PpfMethod::Bisection);
    assert_eq!(
        SampleMethod::<u8>::Inverse(PpfMethod::Hermite { grid_size: 64 }).ppf_method(),
        PpfMethod::Hermite { grid_size: 64 }
    );
    assert_eq!(
        SampleMethod::<u8>::Inverse(PpfMethod::Bisection).ppf_method(),
        PpfMethod::Bisection
    );
}

#[test]
fn invert_backend_needs_pdf_for_tdr() {
    assert_eq!(
        SampleMethod::Tdr(()).invert_table_grid(),
        Err(BuildError::InvalidSupport(
            "TDR sampling requires a PDF (use from_pdf_fn, not from_cdf_fn)"
        ))
    );
    assert_eq!(
        SampleMethod::<()>::Inverse(PpfMethod::Hermite { grid_size: 128 }).invert_table_grid(),
        Ok(Some(128))
    );
    assert_eq!(
        SampleMethod::<()>::Inverse(PpfMethod::Bisection).invert_table_grid(),
        Ok(None)
    );
}

type Backend = SamplingBackend<u32, &'static str, i64>;

#[test]
fn hermite_table_set_and_clear() {
    let mut b: Backend = SamplingBackend::Invert { invert: 7, use_newton: true, hermite: None };
    assert!(!b.uses_hermite_table());
    b.set_hermite_table("table");
    assert!(b.uses_hermite_table());
    assert!(!b.uses_tdr());
    assert_eq!(b.invert_options(), Some(&7));
    b.clear_hermite_table();
    assert!(!b.uses_hermite_table());

    let mut t: Backend = SamplingBackend::Tdr(-3);
    t.set_hermite_table("ignored");
    assert!(!t.uses_hermite_table());
    assert!(t.uses_tdr());
    t.clear_hermite_table();
    assert!(t.uses_tdr());
    assert_eq!(t.invert_options(), None);
}

#[test]
fn ppf_routes() {
    let default = 100u32;
    let table: Backend =
        SamplingBackend::Invert { invert: 1, use_newton: true, hermite: Some("t") };
    assert!(matches!(table.ppf_route(true, &default), PpfRoute::Table(&"t")));
    let newton: Backend = SamplingBackend::Invert { invert: 1, use_newton: true, hermite: None };
    assert!(matches!(newton.ppf_route(true, &default), PpfRoute::Newton(&1)));
    assert!(matches!(newton.ppf_route(false, &default), PpfRoute::Bisection(&1)));
    let plain: Backend = SamplingBackend::Invert { invert: 1, use_newton: false, hermite: None };
    assert!(matches!(plain.ppf_route(true, &default), PpfRoute::Bisection(&1)));
    let tdr: Backend = SamplingBackend::Tdr(9);
    assert!(matches!(tdr.ppf_route(true, &default), PpfRoute::Newton(&100)));
    assert!(matches!(tdr.ppf_route(false, &default), PpfRoute::Bisection(&100)));
}

#[test]
fn tdr_ppf_matches_default_backend() {
    let default = 100u32;
    let tdr: Backend = SamplingBackend::Tdr(9);
    let plain: Backend =
        SamplingBackend::Invert { invert: default, use_newton: true, hermite: None };
    for has_pdf in [true, false] {
        match (tdr.ppf_route(has_pdf, &default), plain.ppf_route(has_pdf, &default)) {
            (PpfRoute::Newton(a), PpfRoute::Newton(b)) => assert_eq!(a, b),
            (PpfRoute::Bisection(a), PpfRoute::Bisection(b)) => assert_eq!(a, b),
            _ => panic!("routes differ"),
        }
    }
}

#[test]
fn sample_routes() {
    let inv: Backend = SamplingBackend::Invert { invert: 1, use_newton: false, hermite: None };
    assert!(matches!(inv.sample_route(false), Ok(SampleRoute::InverseTransform)));
    let tdr: Backend = SamplingBackend::Tdr(9);
    assert!(matches!(tdr.sample_route(true), Ok(SampleRoute::Hat(&9))));
    assert!(matches!(tdr.sample_route(false), Err(SampleError::PdfRequired)));
}

#[test]
fn hermite_knots_and_segments() {
    assert_eq!(knot_count(0), 4);
    assert_eq!(knot_count(3), 4);
    assert_eq!(knot_count(64), 64);
    assert_eq!(segment_index(0, 64), 0);
    assert_eq!(segment_index(1, 64), 0);
    assert_eq!(segment_index(10, 64), 9);
    assert_eq!(segment_index(64, 64), 62);
    assert_eq!(segment_index(100, 4), 2);
}

#[test]
fn tdr_grid_and_segments() {
    assert_eq!(construction_grid(TdrTransform::InvSqrt, 30), 32);
    assert_eq!(construction_grid(TdrTransform::InvSqrt, 40), 40);
    assert_eq!(construction_grid(TdrTransform::Log, 30), 30);
    assert_eq!(construction_grid(TdrTransform::Log, 2), 4);
    assert_eq!(seg_index(Ok(3)), 4);
    assert_eq!(seg_index(Err(3)), 3);
    assert_eq!(seg_index(Err(0)), 0);
}

#[test]
fn factor_sampler_keeps_factorization() {
    let s = ConditionalFactorSampler::new(vec![1u8, 2, 3]);
    assert_eq!(s.inner(), &vec![1u8, 2, 3]);
}

#[test]
fn chain_must_be_initialized() {
    let mut c: simsam::ChainState<Vec<f64>> = simsam::ChainState::new();
    assert!(!c.is_initialized());
    assert_eq!(c.current(), Err(SampleError::McmcNotInitialized));
    c.move_to(vec![0.5, 0.25]);
    assert!(c.is_initialized());
    assert_eq!(c.current(), Ok(&vec![0.5, 0.25]));
    c.move_to(vec![0.75, 0.5]);
    assert_eq!(c.current(), Ok(&vec![0.75, 0.5]));
}

#[test]
fn tdr_method_detected() {
    assert!(SampleMethod::Tdr(0u8).is_tdr());
    assert!(!SampleMethod::<u8>::Inverse(PpfMethod::Bisection).is_tdr());
}
