//! Decisions of the material scattering protocol.
use vstd::prelude::*;
use crate::hittable::Vec3Bits;
use crate::ordering::{abs_bits, float_lt, less, magnitude, ONE_BITS};

verus! {

/// Whether the checker pattern shows its first color in cell `(i, j, k)`:
/// cells whose indices have an even sum do.
pub open spec fn checker_first_spec(i: int, j: int, k: int) -> bool {
    (i + j + k) % 2 == 0
}

/// Picks the checker color of the cell with indices `(i, j, k)`, the floors of
/// the point's coordinates divided by the cell size: `true` selects the first
/// color, `false` the second.
pub fn checker_first(i: i64, j: i64, k: i64) -> (r: bool)
    ensures
        r == checker_first_spec(i as int, j as int, k as int),
{
    let pi: i64 = i % 2;
    let pj: i64 = j % 2;
    let pk: i64 = k % 2;
    assert(pi as int % 2 == i as int % 2);
    assert(pj as int % 2 == j as int % 2);
    assert(pk as int % 2 == k as int % 2);
    assert((pi + pj + pk) as int % 2 == (i + j + k) as int % 2) by (nonlinear_arith)
        requires
            pi as int % 2 == i as int % 2,
            pj as int % 2 == j as int % 2,
            pk as int % 2 == k as int % 2,
    ;
    (pi + pj + pk) % 2 == 0
}

/// Checker parity: neighbouring cells along any one axis show opposite colors.
pub proof fn lemma_checker_alternates(i: int, j: int, k: int)
    ensures
        checker_first_spec(i, j, k) != checker_first_spec(i + 1, j, k),
        checker_first_spec(i, j, k) != checker_first_spec(i, j + 1, k),
        checker_first_spec(i, j, k) != checker_first_spec(i, j, k + 1),
{
}

/// What a material's scatter returned: whether a scattered ray and whether a
/// color came back.
#[derive(Debug, Clone, Copy, PartialEq, Eq, Structural)]
pub enum ScatterKind {
    /// A scattered ray and an attenuation color: the surface reflects or transmits.
    Attenuated,
    /// A color and no ray: the surface emits.
    Emitted,
    /// Neither: the surface absorbs.
    Absorbed,
    /// A ray and no color.
    Uncolored,
}

/// Classifies a scatter result by which of its two parts are present.
pub fn scatter_kind(has_ray: bool, has_color: bool) -> (r: ScatterKind)
    ensures
        has_ray && has_color ==> r == ScatterKind::Attenuated,
        !has_ray && has_color ==> r == ScatterKind::Emitted,
        !has_ray && !has_color ==> r == ScatterKind::Absorbed,
        has_ray && !has_color ==> r == ScatterKind::Uncolored,
{
    if has_color {
        if has_ray {
            ScatterKind::Attenuated
        } else {
            ScatterKind::Emitted
        }
    } else if has_ray {
        ScatterKind::Uncolored
    } else {
        ScatterKind::Absorbed
    }
}

/// Whether a dielectric reflects rather than refracts: total internal
/// reflection (`ratio * sin_theta > 1`) or a uniform draw below the Schlick
/// reflectance.
pub open spec fn dielectric_reflects_spec(scaled_sin: u64, reflectance: u64, draw: u64) -> bool {
    less(ONE_BITS, scaled_sin) || less(draw, reflectance)
}

/// Decides between reflection and refraction at a dielectric surface, given
/// `ratio * sin_theta`, the Schlick reflectance `r0 + (1 - r0)(1 - cos_theta)^5`
/// and a uniform draw in `[0, 1)`.
pub fn dielectric_reflects(scaled_sin: u64, reflectance: u64, draw: u64) -> (r: bool)
    ensures
        r == dielectric_reflects_spec(scaled_sin, reflectance, draw),
{
    float_lt(ONE_BITS, scaled_sin) || float_lt(draw, reflectance)
}

/// `|c| < tolerance` for the component pattern `c`.
pub open spec fn small(c: u64, tolerance: u64) -> bool {
    less(magnitude(c) as u64, tolerance)
}

/// Whether a sampled diffuse direction is too close to the zero vector to
/// serve as a ray direction: every component is below `tolerance` in
/// absolute value. The surface normal then takes its place.
pub fn near_zero(v: Vec3Bits, tolerance: u64) -> (r: bool)
    ensures
        r == (small(v.x, tolerance) && small(v.y, tolerance) && small(v.z, tolerance)),
{
    float_lt(abs_bits(v.x), tolerance) && float_lt(abs_bits(v.y), tolerance) && float_lt(
        abs_bits(v.z),
        tolerance,
    )
}

} // verus!
