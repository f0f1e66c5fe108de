//! Decision control of the ellipsoidal math toolkit's one fallible function:
//! the iterative inverse of the isometric-latitude transform.
//!
//! The numeric Newton steps happen outside this crate; what is decided here
//! is the fixed iteration budget and when exhausting it without reaching
//! tolerance becomes the non-convergence error, so the iteration can never
//! run unbounded.

use vstd::prelude::*;

use crate::errors::Error;

verus! {

/// What one recorded Newton step decides: stop with the converged latitude,
/// or compute another correction.
#[derive(Debug, Clone, Copy, PartialEq, Eq, Structural)]
pub enum Phi2Step {
    Converged,
    Continue,
}

/// The iteration budget of the inverse isometric-latitude calculation.
#[derive(Debug, Clone, Copy, PartialEq, Eq, Structural)]
pub struct Phi2Iter {
    remaining: u32,
}

impl Phi2Iter {
    /// Corrections that may still be computed before the iteration fails.
    pub closed spec fn steps_left(self) -> int {
        self.remaining as int
    }

    /// A fresh iteration, with the budget of fifteen Newton steps.
    pub fn new() -> (r: Phi2Iter)
        ensures
            r.steps_left() == 15,
    {
        Phi2Iter { remaining: 15 }
    }

    /// Record one computed correction: whether its magnitude was within the
    /// convergence tolerance. Within tolerance the iteration converged; out
    /// of tolerance it goes on while budget remains, and reports the
    /// non-convergence error once the budget is spent.
    pub fn step(&mut self, within_tolerance: bool) -> (r: Result<Phi2Step, Error>)
        ensures
            within_tolerance ==> r == Ok::<Phi2Step, Error>(Phi2Step::Converged) && *final(self)
                == *old(self),
            !within_tolerance && old(self).steps_left() > 1 ==> r == Ok::<Phi2Step, Error>(
                Phi2Step::Continue,
            ) && final(self).steps_left() == old(self).steps_left() - 1,
            !within_tolerance && old(self).steps_left() <= 1 ==> r == Err::<Phi2Step, Error>(
                Error::NonInvPhi2Convergence,
            ) && *final(self) == *old(self),
    {
        if within_tolerance {
            Ok(Phi2Step::Converged)
        } else if self.remaining > 1 {
            self.remaining = self.remaining - 1;
            Ok(Phi2Step::Continue)
        } else {
            Err(Error::NonInvPhi2Convergence)
        }
    }
}

} // verus!
