//! Stop policy of the iterative geodetic-latitude solve.
//!
//! The latitude of an inertial position over the oblate ellipsoid is
//! found by a fixed-point iteration.  The numeric update is
//! floating-point and stays outside the library; the decision of when
//! to stop lives here, so the bounded-effort guarantee — the solve
//! never runs past its iteration cap — is verified.

use vstd::prelude::*;

verus! {

/// Outcome of one stop test of the latitude iteration.
#[derive(Clone, Copy, Debug, PartialEq, Eq)]
pub enum LatitudeStep {
    /// The latest update moved less than the tolerance: accept it.
    Converged,
    /// The bounded-effort cap: accept the current estimate even though
    /// it has not converged.
    CapReached,
    /// Keep iterating.
    Continue,
}

/// How many times the latitude iteration may decide to continue.
pub const LATITUDE_ITERATION_CAP: i32 = 10;

/// Decide whether the latitude iteration stops: convergence wins, the
/// iteration cap stops an unconverged solve unconditionally, and the
/// solve continues only while the count is below the cap.
pub fn latitude_solve_step(iterations: i32, delta_below_tolerance: bool) -> (r: LatitudeStep)
    ensures
        delta_below_tolerance ==> r == LatitudeStep::Converged,
        !delta_below_tolerance && iterations >= LATITUDE_ITERATION_CAP ==> r
            == LatitudeStep::CapReached,
        !delta_below_tolerance && iterations < LATITUDE_ITERATION_CAP ==> r
            == LatitudeStep::Continue,
        r == LatitudeStep::Continue ==> iterations < LATITUDE_ITERATION_CAP,
{
    if delta_below_tolerance {
        LatitudeStep::Converged
    } else if iterations >= LATITUDE_ITERATION_CAP {
        LatitudeStep::CapReached
    } else {
        LatitudeStep::Continue
    }
}

} // verus!
