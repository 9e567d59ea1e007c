//! The decisions of the recursive radiance estimator.
use vstd::prelude::*;
use crate::material::ScatterKind;

verus! {

/// What the estimator returns for a ray.
#[derive(Debug, Clone, Copy, PartialEq, Eq, Structural)]
pub enum Step {
    /// Zero radiance.
    Black,
    /// The sky gradient at the ray's direction.
    Background,
    /// The color the material returned, as emitted radiance.
    Emission,
    /// The attenuation times the radiance of the scattered ray, traced with
    /// the bounce budget `depth`.
    Bounce { depth: i32 },
}

/// Whether a ray with bounce budget `depth` is traced at all.
pub open spec fn traced(depth: i32) -> bool {
    depth > 0
}

/// The estimator's answer for a ray with bounce budget `depth`, given what the
/// scene did with it: `None` when it hit nothing, else how the material of the
/// nearest hit scattered it.
pub open spec fn ray_step_spec(depth: i32, outcome: Option<ScatterKind>) -> Step {
    if !traced(depth) {
        Step::Black
    } else {
        match outcome {
            None => Step::Background,
            Some(ScatterKind::Attenuated) => Step::Bounce { depth: (depth - 1) as i32 },
            Some(ScatterKind::Emitted) => Step::Emission,
            Some(ScatterKind::Absorbed) => Step::Black,
            Some(ScatterKind::Uncolored) => Step::Background,
        }
    }
}

/// Whether a ray with bounce budget `depth` is traced: when it is not, the
/// scene is not queried and the radiance is zero.
pub fn bounces_left(depth: i32) -> (r: bool)
    ensures
        r == traced(depth),
{
    depth > 0
}

/// One level of the radiance estimator.
pub fn ray_step(depth: i32, outcome: Option<ScatterKind>) -> (r: Step)
    ensures
        r == ray_step_spec(depth, outcome),
        r matches Step::Bounce { depth: d } ==> 0 <= d < depth,
{
    if depth <= 0 {
        return Step::Black;
    }
    match outcome {
        None => Step::Background,
        Some(ScatterKind::Attenuated) => Step::Bounce { depth: depth - 1 },
        Some(ScatterKind::Emitted) => Step::Emission,
        Some(ScatterKind::Absorbed) => Step::Black,
        Some(ScatterKind::Uncolored) => Step::Background,
    }
}

/// An exhausted bounce budget yields zero radiance whatever the scene holds.
pub proof fn lemma_exhausted_budget_is_black(depth: i32, outcome: Option<ScatterKind>)
    requires
        depth <= 0,
    ensures
        ray_step_spec(depth, outcome) == Step::Black,
{
}

/// Every bounce lowers the budget, so a ray with budget `depth` is followed
/// through at most `depth` bounces.
pub proof fn lemma_bounce_lowers_budget(depth: i32, outcome: Option<ScatterKind>)
    ensures
        ray_step_spec(depth, outcome) matches Step::Bounce { depth: d } ==> 0 <= d < depth,
{
}

} // verus!
