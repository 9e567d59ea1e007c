use raytracer::hittable::{nearest_hit, Vec3Bits};
use raytracer::integrator::{bounces_left, ray_step, Step};
use raytracer::material::{
    checker_first, dielectric_reflects, near_zero, scatter_kind, ScatterKind,
};

fn b(x: f64) -> u64 {
    x.to_bits()
}

#[test]
fn checker_origin_cell_is_first_color() {
    assert!(checker_first(0, 0, 0));
    assert!(checker_first(1, 1, 0));
    assert!(checker_first(-1, -1, 0));
    assert!(checker_first(-1, 2, -3));
}

#[test]
fn checker_neighbours_alternate() {
    for &(i, j, k) in [(0i64, 0i64, 0i64), (-1, 4, 7), (-5, -5, -5), (3, -2, 0)].iter() {
        let here = checker_first(i, j, k);
        assert_ne!(here, checker_first(i + 1, j, k));
        assert_ne!(here, checker_first(i, j + 1, k));
        assert_ne!(here, checker_first(i, j, k + 1));
        assert_ne!(here, checker_first(i - 1, j, k));
    }
}

#[test]
fn checker_extreme_cells() {
    // 3 * i64::MAX is odd; the sum does not wrap.
    assert!(!checker_first(i64::MAX, i64::MAX, i64::MAX));
    assert!(checker_first(i64::MIN, i64::MIN, 0));
    assert!(!checker_first(i64::MIN, i64::MAX, 0));
}

#[test]
fn scatter_kinds() {
    assert_eq!(scatter_kind(true, true), ScatterKind::Attenuated);
    assert_eq!(scatter_kind(false, true), ScatterKind::Emitted);
    assert_eq!(scatter_kind(false, false), ScatterKind::Absorbed);
    assert_eq!(scatter_kind(true, false), ScatterKind::Uncolored);
}

#[test]
fn total_internal_reflection_reflects() {
    assert!(dielectric_reflects(b(1.2), b(0.0), b(0.99)));
}

#[test]
fn dielectric_draw_decides() {
    assert!(!dielectric_reflects(b(0.5), b(0.04), b(0.9)));
    assert!(dielectric_reflects(b(0.5), b(0.04), b(0.01)));
    assert!(!dielectric_reflects(b(1.0), b(0.04), b(0.04)));
}

#[test]
fn exhausted_budget_is_black() {
    assert!(!bounces_left(0));
    assert!(!bounces_left(-4));
    assert!(bounces_left(1));
    for outcome in [
        None,
        Some(ScatterKind::Attenuated),
        Some(ScatterKind::Emitted),
        Some(ScatterKind::Absorbed),
        Some(ScatterKind::Uncolored),
    ] {
        assert_eq!(ray_step(0, outcome), Step::Black);
        assert_eq!(ray_step(i32::MIN, outcome), Step::Black);
    }
}

#[test]
fn bounce_steps() {
    assert_eq!(ray_step(16, None), Step::Background);
    assert_eq!(ray_step(16, Some(ScatterKind::Attenuated)), Step::Bounce { depth: 15 });
    assert_eq!(ray_step(1, Some(ScatterKind::Attenuated)), Step::Bounce { depth: 0 });
    assert_eq!(ray_step(16, Some(ScatterKind::Emitted)), Step::Emission);
    assert_eq!(ray_step(16, Some(ScatterKind::Absorbed)), Step::Black);
    assert_eq!(ray_step(16, Some(ScatterKind::Uncolored)), Step::Background);
}

#[test]
fn emissive_hit_ends_the_path() {
    // One emissive sphere in front of the camera: the nearest hit is the
    // sphere, and its emission is returned without any recursion.
    let hits = vec![Some(b(4.0))];
    assert_eq!(nearest_hit(&hits, b(f64::INFINITY)), Some(0));
    let kind = scatter_kind(false, true);
    assert_eq!(ray_step(16, Some(kind)), Step::Emission);
    assert_eq!(ray_step(1, Some(kind)), Step::Emission);
}

#[test]
fn empty_world_shows_background() {
    let hits: Vec<Option<u64>> = Vec::new();
    let hit = nearest_hit(&hits, b(f64::INFINITY));
    assert_eq!(hit, None);
    assert_eq!(ray_step(16, None), Step::Background);
}

#[test]
fn degenerate_direction_is_detected() {
    let tol = b(1e-8);
    let v = |x: f64, y: f64, z: f64| Vec3Bits { x: b(x), y: b(y), z: b(z) };
    assert!(near_zero(v(0.0, -0.0, 1e-9), tol));
    assert!(near_zero(v(-5e-9, 5e-9, 0.0), tol));
    assert!(!near_zero(v(0.0, -0.5, 0.0), tol));
    assert!(!near_zero(v(1e-8, 0.0, 0.0), tol));
    assert!(!near_zero(v(f64::NAN, 0.0, 0.0), tol));
}
