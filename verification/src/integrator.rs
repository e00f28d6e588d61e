//! Control decisions of the recursive light-transport integrator.
//!
//! The integrator maps a ray to a color: at depth zero a path is cut off
//! and contributes black, a ray that misses every surface takes the
//! background color, a hit on a non-scattering material contributes its
//! emission alone, and a scattering hit adds an attenuated recursive
//! bounce. The colors themselves are floating-point values computed
//! outside this crate; the branch taken is decided here, exactly.

use vstd::prelude::*;

verus! {

/// What the integrator does with one ray.
#[derive(Clone, Copy, Debug, PartialEq, Eq, Structural)]
pub enum TraceOutcome {
    /// The depth budget is spent: the path contributes black.
    Terminate,
    /// No surface was hit: the path takes the background color.
    Background,
    /// A non-scattering surface was hit: its emission alone is returned.
    EmissionOnly,
    /// A scattering surface was hit: emission plus the attenuated color of
    /// the scattered ray, traced with one unit less depth.
    Scatter,
}

/// The branch the integrator takes, given the remaining depth budget,
/// whether the ray hit a surface, and whether the hit material scattered.
pub open spec fn trace_outcome(depth: u32, hit: bool, scatters: bool) -> TraceOutcome {
    if depth == 0 {
        TraceOutcome::Terminate
    } else if !hit {
        TraceOutcome::Background
    } else if !scatters {
        TraceOutcome::EmissionOnly
    } else {
        TraceOutcome::Scatter
    }
}

/// Decides the integrator's branch for one ray.
pub fn decide_trace(depth: u32, hit: bool, scatters: bool) -> (o: TraceOutcome)
    ensures
        o == trace_outcome(depth, hit, scatters),
{
    if depth == 0 {
        TraceOutcome::Terminate
    } else if !hit {
        TraceOutcome::Background
    } else if !scatters {
        TraceOutcome::EmissionOnly
    } else {
        TraceOutcome::Scatter
    }
}

/// With a depth budget of zero every path is cut off before any surface
/// query: the integrator returns black for every ray, whatever the scene
/// holds.
pub proof fn depth_cutoff_is_unconditional()
    ensures
        forall|hit: bool, scatters: bool|
            trace_outcome(0, hit, scatters) == TraceOutcome::Terminate,
{
}

} // verus!
