use vstd::prelude::*;

use crate::error::FieldError;

verus! {

/// Iteration cap of the elliptic kernel: the arithmetic-geometric-mean style
/// recurrence converges quadratically, so a budget this size is never
/// exhausted on physically valid inputs; exhausting it surfaces as
/// [`FieldError::ConvergenceFailure`] instead of looping unboundedly.
pub const CEL_MAX_ITERATIONS: u32 = 100;

/// Validates the inputs of the elliptic kernel `cel(kc, p, c, s)` before any
/// iteration starts.
///
/// The callers hand in the two degeneracy tests on the floating-point inputs:
/// whether the modulus complement `kc` is zero and whether the shape parameter
/// `p` is zero. A zero modulus is refused as [`FieldError::InvalidModulus`];
/// otherwise a zero shape parameter is refused as
/// [`FieldError::InvalidShapeParameter`]; all other inputs are accepted,
/// exactly.
pub fn cel_preflight(kc_is_zero: bool, p_is_zero: bool) -> (r: Result<(), FieldError>)
    ensures
        kc_is_zero ==> r == Err::<(), FieldError>(FieldError::InvalidModulus),
        !kc_is_zero && p_is_zero ==> r == Err::<(), FieldError>(FieldError::InvalidShapeParameter),
        !kc_is_zero && !p_is_zero ==> r == Ok::<(), FieldError>(()),
{
    if kc_is_zero {
        Err(FieldError::InvalidModulus)
    } else if p_is_zero {
        Err(FieldError::InvalidShapeParameter)
    } else {
        Ok(())
    }
}

/// What the kernel loop does next.
#[derive(Clone, Copy, Debug, PartialEq, Eq, Structural)]
pub enum KernelStep {
    /// The recurrence met its tolerance: stop and combine the iterates.
    Converged,
    /// Not yet converged and budget remains: run one more iteration.
    Iterate,
    /// Not converged and the budget is exhausted: fail with
    /// [`FieldError::ConvergenceFailure`].
    GiveUp,
}

/// The bounded iteration budget of the elliptic kernel loop.
///
/// The loop itself works on floating-point iterates outside the verified
/// core; this type decides, exactly, when that loop stops: on convergence, on
/// the next iteration, or by giving up once the budget is spent, so the loop
/// can never run unboundedly.
#[derive(Clone, Copy, Debug, PartialEq, Eq, Structural)]
pub struct IterationBudget {
    remaining: u32,
}

impl IterationBudget {
    pub closed spec fn remaining_spec(&self) -> u32 {
        self.remaining
    }

    pub fn new(cap: u32) -> (r: IterationBudget)
        ensures
            r.remaining_spec() == cap,
    {
        IterationBudget { remaining: cap }
    }

    pub fn remaining(&self) -> (r: u32)
        ensures
            r == self.remaining_spec(),
    {
        self.remaining
    }

    /// One decision of the kernel loop, given whether the last two iterates
    /// were within tolerance of each other.
    pub fn advance(&mut self, converged: bool) -> (s: KernelStep)
        ensures
            converged ==> s == KernelStep::Converged && *final(self) == *old(self),
            !converged && old(self).remaining_spec() > 0 ==> s == KernelStep::Iterate
                && final(self).remaining_spec() == old(self).remaining_spec() - 1,
            !converged && old(self).remaining_spec() == 0 ==> s == KernelStep::GiveUp
                && *final(self) == *old(self),
    {
        if converged {
            KernelStep::Converged
        } else if self.remaining > 0 {
            self.remaining = self.remaining - 1;
            KernelStep::Iterate
        } else {
            KernelStep::GiveUp
        }
    }
}

} // verus!
