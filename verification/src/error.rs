//! Kinds of simulator errors, and how the sweeps and the Python front end
//! treat each kind.

use vstd::prelude::*;

verus! {

/// Kind of a simulator error.
#[derive(Clone, Copy, Debug, PartialEq, Eq, Structural)]
pub enum ErrorKind {
    /// The self-consistent loop exhausted its iteration budget: a runtime
    /// condition about one bias point, not a mistake of the caller.
    NotConverged,
    /// A parameter is out of its domain: a mistake of the caller.
    InvalidParameter,
}

/// Python exception class an error is raised as.
#[derive(Clone, Copy, Debug, PartialEq, Eq, Structural)]
pub enum ExceptionClass {
    /// `ValueError`: bad input.
    ValueError,
    /// `RuntimeError`: everything else.
    RuntimeError,
}

/// Invalid parameters become `ValueError`, as is the Python convention for
/// bad input; a loop that did not converge becomes `RuntimeError`.
pub fn exception_class(kind: ErrorKind) -> (c: ExceptionClass)
    ensures
        kind == ErrorKind::InvalidParameter <==> c == ExceptionClass::ValueError,
        kind == ErrorKind::NotConverged <==> c == ExceptionClass::RuntimeError,
{
    match kind {
        ErrorKind::InvalidParameter => ExceptionClass::ValueError,
        ErrorKind::NotConverged => ExceptionClass::RuntimeError,
    }
}

/// Whether an error met while solving one bias point of a sweep stays with
/// that point (which is then reported as not converged) rather than
/// failing the whole sweep. Only non-convergence does: one stubborn bias
/// point should not discard an otherwise good sweep.
pub fn stays_with_bias_point(kind: ErrorKind) -> (b: bool)
    ensures
        b <==> kind == ErrorKind::NotConverged,
{
    match kind {
        ErrorKind::NotConverged => true,
        ErrorKind::InvalidParameter => false,
    }
}

} // verus!
