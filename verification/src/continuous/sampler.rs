use crate::error::{BuildError, SampleError};
use vstd::prelude::*;

verus! {

/// How to invert the CDF when computing `ppf` (inverse transform sampling path).
#[derive(Debug, Clone, Copy, PartialEq, Eq)]
pub enum PpfMethod {
    /// Bisection (+ optional Newton) on each `ppf` call.
    Bisection,
    /// Precomputed Hermite table; faster for many samples.
    Hermite { grid_size: usize },
}

impl Default for PpfMethod {
    fn default() -> (res: Self)
        ensures
            res == PpfMethod::Bisection,
    {
        PpfMethod::Bisection
    }
}

/// How to draw samples from a continuous distribution: numerical inverse CDF, or
/// transformed density rejection with configuration `C`.
#[derive(Debug, Clone, Copy)]
pub enum SampleMethod<C> {
    /// Numerical inverse CDF (bisection or Hermite table).
    Inverse(PpfMethod),
    /// Transformed density rejection.
    Tdr(C),
}

impl<C> Default for SampleMethod<C> {
    fn default() -> (res: Self)
        ensures
            res == SampleMethod::<C>::Inverse(PpfMethod::Bisection),
    {
        SampleMethod::Inverse(PpfMethod::Bisection)
    }
}

impl<C> SampleMethod<C> {
    /// The inversion used for `ppf` and the statistics under this method.
    pub open spec fn spec_ppf_method(self) -> PpfMethod {
        match self {
            SampleMethod::Inverse(m) => m,
            SampleMethod::Tdr(_) => PpfMethod::Bisection,
        }
    }

    /// PPF method used for `ppf` / statistics (always inverse transform).
    pub fn ppf_method(&self) -> (res: PpfMethod)
        ensures
            res == self.spec_ppf_method(),
    {
        match self {
            SampleMethod::Inverse(m) => *m,
            SampleMethod::Tdr(_) => PpfMethod::Bisection,
        }
    }

    /// Whether this method samples by TDR.
    pub fn is_tdr(&self) -> (res: bool)
        ensures
            res == self is Tdr,
    {
        match self {
            SampleMethod::Tdr(_) => true,
            SampleMethod::Inverse(_) => false,
        }
    }

    /// What building an inverse-transform backend under this method yields: an error
    /// when TDR is selected (only a PDF can drive it), else the grid size of the Hermite
    /// table to build, if any.
    pub open spec fn spec_invert_table_grid(self) -> Result<Option<usize>, BuildError> {
        match self {
            SampleMethod::Tdr(_) => Err(
                BuildError::InvalidSupport(
                    "TDR sampling requires a PDF (use from_pdf_fn, not from_cdf_fn)",
                ),
            ),
            SampleMethod::Inverse(PpfMethod::Bisection) => Ok(None),
            SampleMethod::Inverse(PpfMethod::Hermite { grid_size }) => Ok(Some(grid_size)),
        }
    }

    /// The decision that building an inverse-transform backend makes.
    pub fn invert_table_grid(&self) -> (res: Result<Option<usize>, BuildError>)
        ensures
            res == self.spec_invert_table_grid(),
    {
        if let SampleMethod::Tdr(_) = self {
            return Err(
                BuildError::InvalidSupport(
                    "TDR sampling requires a PDF (use from_pdf_fn, not from_cdf_fn)",
                ),
            );
        }
        match self.ppf_method() {
            PpfMethod::Bisection => Ok(None),
            PpfMethod::Hermite { grid_size } => Ok(Some(grid_size)),
        }
    }
}

/// The sampling backend of a continuous sampler: inverse transform with inversion
/// options `I`, a Newton switch and an optional Hermite table `H`; or a TDR hat `T`.
pub enum SamplingBackend<I, H, T> {
    Invert { invert: I, use_newton: bool, hermite: Option<H> },
    Tdr(T),
}

/// How `ppf` inverts the CDF, with the inversion options it uses.
pub enum PpfRoute<'a, I, H> {
    /// Evaluate the Hermite table.
    Table(&'a H),
    /// Bisection refined by Newton steps on the PDF.
    Newton(&'a I),
    /// Bisection alone.
    Bisection(&'a I),
}

/// How a sample is drawn.
pub enum SampleRoute<'a, T> {
    /// Draw a uniform quantile and invert the CDF at it.
    InverseTransform,
    /// Draw from the TDR hat and accept against the PDF.
    Hat(&'a T),
}

impl<I, H, T> SamplingBackend<I, H, T> {
    pub open spec fn spec_uses_hermite_table(self) -> bool {
        self matches SamplingBackend::Invert { hermite: Some(_), .. }
    }

    pub open spec fn spec_uses_tdr(self) -> bool {
        self is Tdr
    }

    /// The backend with its Hermite table replaced by `table` (inverse-transform
    /// backends only; a TDR backend is unchanged).
    pub open spec fn with_table(self, table: H) -> Self {
        match self {
            SamplingBackend::Invert { invert, use_newton, hermite: _ } => SamplingBackend::Invert {
                invert,
                use_newton,
                hermite: Some(table),
            },
            SamplingBackend::Tdr(hat) => SamplingBackend::Tdr(hat),
        }
    }

    /// The backend without a Hermite table (inverse-transform backends only).
    pub open spec fn without_table(self) -> Self {
        match self {
            SamplingBackend::Invert { invert, use_newton, hermite: _ } => SamplingBackend::Invert {
                invert,
                use_newton,
                hermite: None,
            },
            SamplingBackend::Tdr(hat) => SamplingBackend::Tdr(hat),
        }
    }

    pub fn uses_hermite_table(&self) -> (res: bool)
        ensures
            res == self.spec_uses_hermite_table(),
    {
        match self {
            SamplingBackend::Invert { hermite: Some(_), .. } => true,
            _ => false,
        }
    }

    pub fn uses_tdr(&self) -> (res: bool)
        ensures
            res == self.spec_uses_tdr(),
    {
        match self {
            SamplingBackend::Tdr(_) => true,
            _ => false,
        }
    }

    /// The inversion options of an inverse-transform backend.
    pub fn invert_options(&self) -> (res: Option<&I>)
        ensures
            match *self {
                SamplingBackend::Invert { invert, .. } => res == Some(&invert),
                SamplingBackend::Tdr(_) => res is None,
            },
    {
        match self {
            SamplingBackend::Invert { invert, .. } => Some(invert),
            SamplingBackend::Tdr(_) => None,
        }
    }

    /// Replace the Hermite table (inverse-transform path only).
    pub fn set_hermite_table(&mut self, table: H)
        ensures
            *final(self) == old(self).with_table(table),
    {
        if let SamplingBackend::Invert { hermite, .. } = self {
            *hermite = Some(table);
        }
    }

    /// Drop the Hermite table, so that `ppf` bisects (inverse-transform path only).
    pub fn clear_hermite_table(&mut self)
        ensures
            *final(self) == old(self).without_table(),
    {
        if let SamplingBackend::Invert { hermite, .. } = self {
            *hermite = None;
        }
    }

    /// How `ppf` inverts the CDF, given whether the distribution has a PDF and the
    /// inversion options that apply where the backend keeps none of its own (TDR).
    pub open spec fn spec_ppf_route<'a>(&'a self, has_pdf: bool, default: &'a I) -> PpfRoute<'a, I, H> {
        match *self {
            SamplingBackend::Invert { invert, use_newton, hermite } => match hermite {
                Some(t) => PpfRoute::Table(&t),
                None => if use_newton && has_pdf {
                    PpfRoute::Newton(&invert)
                } else {
                    PpfRoute::Bisection(&invert)
                },
            },
            SamplingBackend::Tdr(_) => if has_pdf {
                PpfRoute::Newton(default)
            } else {
                PpfRoute::Bisection(default)
            },
        }
    }

    /// How `ppf` inverts the CDF: with the table if there is one; otherwise by bisection,
    /// refined by Newton when enabled and a PDF exists.  A TDR backend inverts as an
    /// inverse-transform backend with Newton enabled and the default options would.
    pub fn ppf_route<'a>(&'a self, has_pdf: bool, default: &'a I) -> (res: PpfRoute<'a, I, H>)
        ensures
            res == self.spec_ppf_route(has_pdf, default),
    {
        match self {
            SamplingBackend::Invert { invert, use_newton, hermite } => match hermite {
                Some(t) => PpfRoute::Table(t),
                None => {
                    if *use_newton && has_pdf {
                        PpfRoute::Newton(invert)
                    } else {
                        PpfRoute::Bisection(invert)
                    }
                },
            },
            SamplingBackend::Tdr(_) => {
                if has_pdf {
                    PpfRoute::Newton(default)
                } else {
                    PpfRoute::Bisection(default)
                }
            },
        }
    }

    /// How a sample is drawn, given whether the distribution has a PDF: a TDR backend
    /// cannot sample without one.
    pub fn sample_route(&self, has_pdf: bool) -> (res: Result<SampleRoute<'_, T>, SampleError>)
        ensures
            match *self {
                SamplingBackend::Invert { .. } => res matches Ok(SampleRoute::InverseTransform),
                SamplingBackend::Tdr(hat) => if has_pdf {
                    res == Ok::<SampleRoute<'_, T>, SampleError>(SampleRoute::Hat(&hat))
                } else {
                    res == Err::<SampleRoute<'_, T>, SampleError>(SampleError::PdfRequired)
                },
            },
    {
        match self {
            SamplingBackend::Invert { .. } => Ok(SampleRoute::InverseTransform),
            SamplingBackend::Tdr(hat) => {
                if has_pdf {
                    Ok(SampleRoute::Hat(hat))
                } else {
                    Err(SampleError::PdfRequired)
                }
            },
        }
    }
}

/// Statistics never go through TDR: under a TDR sampling method, `ppf` and the
/// statistics built on it invert the CDF by bisection.
pub proof fn ppf_ignores_tdr<C>(cfg: C)
    ensures
        SampleMethod::<C>::Tdr(cfg).spec_ppf_method() == PpfMethod::Bisection,
{
}

/// TDR sampling requires a PDF: building an inverse-transform backend (the only kind a
/// CDF-defined distribution can have) under a TDR method always fails, with the error
/// that says so.
pub proof fn tdr_requires_pdf<C>(cfg: C)
    ensures
        SampleMethod::<C>::Tdr(cfg).spec_invert_table_grid() == Err::<Option<usize>, BuildError>(
            BuildError::InvalidSupport(
                "TDR sampling requires a PDF (use from_pdf_fn, not from_cdf_fn)",
            ),
        ),
{
}

/// Choosing the Hermite method with a grid size makes the inverse-transform backend
/// build a table of that grid size, and `ppf` then reports the Hermite method.
pub proof fn hermite_method_builds_table<C>(grid_size: usize)
    ensures
        (SampleMethod::<C>::Inverse((PpfMethod::Hermite { grid_size }))).spec_invert_table_grid()
            == Ok::<Option<usize>, BuildError>(Some(grid_size)),
        (SampleMethod::<C>::Inverse((PpfMethod::Hermite { grid_size }))).spec_ppf_method()
            == (PpfMethod::Hermite { grid_size }),
{
}

/// Installing a Hermite table makes an inverse-transform backend use it, and never
/// turns a backend into or out of TDR; clearing the table makes no backend use one,
/// again leaving the TDR choice alone; and clearing after installing gives back the
/// backend as it was cleared before.
pub proof fn hermite_table_set_and_clear<I, H, T>(b: SamplingBackend<I, H, T>, table: H)
    ensures
        !b.spec_uses_tdr() ==> b.with_table(table).spec_uses_hermite_table(),
        b.with_table(table).spec_uses_tdr() == b.spec_uses_tdr(),
        !b.without_table().spec_uses_hermite_table(),
        b.without_table().spec_uses_tdr() == b.spec_uses_tdr(),
        b.with_table(table).without_table() == b.without_table(),
        b.spec_uses_tdr() ==> b.with_table(table) == b && b.without_table() == b,
{
}

/// Choosing TDR for sampling does not change `ppf`: a TDR backend inverts the CDF
/// exactly as the default inverse-transform backend (no Hermite table, Newton enabled,
/// the default inversion options) does, for a distribution with or without a PDF.
pub proof fn tdr_ppf_matches_default<I, H, T>(hat: T, default: I, has_pdf: bool)
    ensures
        SamplingBackend::<I, H, T>::Tdr(hat).spec_ppf_route(has_pdf, &default)
            == (SamplingBackend::<I, H, T>::Invert {
            invert: default,
            use_newton: true,
            hermite: None,
        }).spec_ppf_route(has_pdf, &default),
{
}

/// `ppf` on an inverse-transform backend that holds a Hermite table evaluates that
/// table, whether or not the distribution has a PDF and whatever the Newton switch and
/// the options; without a table it bisects with the backend's own options, refined by
/// Newton exactly when Newton is enabled and a PDF exists.
pub proof fn ppf_route_of_invert_backend<I, H, T>(
    invert: I,
    use_newton: bool,
    table: H,
    has_pdf: bool,
    default: I,
)
    ensures
        (SamplingBackend::<I, H, T>::Invert { invert, use_newton, hermite: Some(table) })
            .spec_ppf_route(has_pdf, &default) == PpfRoute::<I, H>::Table(&table),
        use_newton && has_pdf ==> (SamplingBackend::<I, H, T>::Invert {
            invert,
            use_newton,
            hermite: None,
        }).spec_ppf_route(has_pdf, &default) == PpfRoute::<I, H>::Newton(&invert),
        !(use_newton && has_pdf) ==> (SamplingBackend::<I, H, T>::Invert {
            invert,
            use_newton,
            hermite: None,
        }).spec_ppf_route(has_pdf, &default) == PpfRoute::<I, H>::Bisection(&invert),
{
}

/// `ppf` on a TDR backend never evaluates a table: it bisects with the default options,
/// refined by Newton exactly when a PDF exists.
pub proof fn ppf_route_of_tdr_backend<I, H, T>(hat: T, has_pdf: bool, default: I)
    ensures
        has_pdf ==> SamplingBackend::<I, H, T>::Tdr(hat).spec_ppf_route(has_pdf, &default)
            == PpfRoute::<I, H>::Newton(&default),
        !has_pdf ==> SamplingBackend::<I, H, T>::Tdr(hat).spec_ppf_route(has_pdf, &default)
            == PpfRoute::<I, H>::Bisection(&default),
{
}

/// Installing a table on an inverse-transform backend replaces whatever table it held
/// (none, or an older one) by the new one and keeps its options and Newton switch;
/// clearing removes the table and keeps them too.  A TDR backend is left as it is.
pub proof fn hermite_table_replaced_or_cleared<I, H, T>(
    invert: I,
    use_newton: bool,
    held: Option<H>,
    table: H,
    hat: T,
)
    ensures
        (SamplingBackend::<I, H, T>::Invert { invert, use_newton, hermite: held }).with_table(table)
            == (SamplingBackend::<I, H, T>::Invert { invert, use_newton, hermite: Some(table) }),
        (SamplingBackend::<I, H, T>::Invert { invert, use_newton, hermite: held }).without_table()
            == (SamplingBackend::<I, H, T>::Invert { invert, use_newton, hermite: None }),
        SamplingBackend::<I, H, T>::Tdr(hat).with_table(table) == SamplingBackend::<I, H, T>::Tdr(hat),
        SamplingBackend::<I, H, T>::Tdr(hat).without_table() == SamplingBackend::<I, H, T>::Tdr(hat),
{
}

/// An inverse-transform backend reports that it uses a Hermite table exactly when it
/// holds one, whatever its options and Newton switch; it never reports TDR.  A TDR
/// backend reports TDR and no table.
pub proof fn backend_reports<I, H, T>(invert: I, use_newton: bool, held: Option<H>, hat: T)
    ensures
        (SamplingBackend::<I, H, T>::Invert { invert, use_newton, hermite: held })
            .spec_uses_hermite_table() == held is Some,
        !(SamplingBackend::<I, H, T>::Invert { invert, use_newton, hermite: held }).spec_uses_tdr(),
        SamplingBackend::<I, H, T>::Tdr(hat).spec_uses_tdr(),
        !SamplingBackend::<I, H, T>::Tdr(hat).spec_uses_hermite_table(),
{
}

/// The inversion `ppf` uses is the chosen inverse method itself, and bisection under TDR;
/// building an inverse-transform backend builds no table under bisection.
pub proof fn ppf_method_of_each_method<C>(m: PpfMethod, cfg: C)
    ensures
        SampleMethod::<C>::Inverse(m).spec_ppf_method() == m,
        SampleMethod::<C>::Tdr(cfg).spec_ppf_method() == PpfMethod::Bisection,
        SampleMethod::<C>::Inverse(PpfMethod::Bisection).spec_invert_table_grid()
            == Ok::<Option<usize>, BuildError>(None),
{
}

} // verus!
