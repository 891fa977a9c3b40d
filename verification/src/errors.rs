//! Errors reported by trajectory construction.

use vstd::prelude::*;

verus! {

/// Why a profile or blend could not be built.
///
/// Out-of-range sampling is not an error: the evaluators return `None` for a
/// query time outside their span. Degenerate corners are handled internally
/// by omitting the blend.
#[derive(Clone, Copy, Debug, PartialEq, Eq, Structural)]
pub enum TrajError {
    /// A velocity or acceleration limit component is not strictly positive.
    InvalidLimits,
    /// The displacement cannot be covered with the requested boundary
    /// velocities under the given limits.
    Infeasible,
}

} // verus!
