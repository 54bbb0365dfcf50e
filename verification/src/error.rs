use vstd::prelude::*;

verus! {

/// Why a field computation, or the construction of a source, was refused.
///
/// Every failure is surfaced to the caller as a value of this type; nothing is
/// swallowed internally, and nothing is retried.
#[derive(Clone, Copy, Debug, PartialEq, Eq, Structural)]
pub enum FieldError {
    /// The elliptic kernel was invoked with a zero modulus complement.
    InvalidModulus,
    /// The elliptic kernel was invoked with a degenerate shape parameter.
    InvalidShapeParameter,
    /// The elliptic kernel exhausted its iteration budget before the
    /// recurrence met its tolerance.
    ConvergenceFailure,
    /// A magnet was constructed with a non-positive radius or height.
    InvalidGeometry,
    /// A multi-source evaluation was given parallel arrays of unequal length.
    LengthMismatch,
}

} // verus!
