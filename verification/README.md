# simsam

Sampling from custom discrete and continuous distributions (inverse transform,
Hermite PPF tables, transformed density rejection, rejection sampling, MCMC,
Gaussian copulas).

- `src/` is the verified library: the error types and their messages, the
  validation verdicts of the constructors (supports, hyper-rectangles, PMFs,
  histograms, correlation shapes), the choice of sampling backend and of the
  route by which `ppf` and sampling run, the Hermite table's knot and segment
  indices, the TDR grid and segment lookup, option defaults and the Markov-chain
  state. Every function there carries a contract, proved by Verus except for the
  trusted items: the wrapper that formats a `simsym` evaluation error, the
  specification of that error's `Clone`, and the declarations of the `simsym`
  types it holds (`EvalError`, `Symbol`, `RationalPowError`).
- `app/` is the floating-point side: densities, CDFs, quadrature, inversion,
  the samplers themselves and the `rand` and `simsym` integration. It calls the
  library for every decision listed above.
- `tests/` exercises the library's functions on concrete values.
