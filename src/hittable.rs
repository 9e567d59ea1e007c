//! Ray/primitive intersection decisions and the nearest-hit scan.
use vstd::prelude::*;
use crate::ordering::{
    float_lt, is_nan, less, lies_between, negate, negation, rank, strictly_between, ONE_BITS,
    ZERO_BITS,
};

verus! {

/// The root that a sphere reports: the nearer root if it lies in the open
/// interval, else the farther one if it does, else none.
pub open spec fn sphere_root_spec(near: u64, far: u64, t_min: u64, t_max: u64) -> Option<u64> {
    if strictly_between(near, t_min, t_max) {
        Some(near)
    } else if strictly_between(far, t_min, t_max) {
        Some(far)
    } else {
        None
    }
}

/// Picks the ray parameter of a sphere hit from the two roots of its
/// quadratic, `near = (-half_b - sqrt(d)) / a` and `far = (-half_b + sqrt(d)) / a`.
pub fn sphere_root(near: u64, far: u64, t_min: u64, t_max: u64) -> (r: Option<u64>)
    ensures
        r == sphere_root_spec(near, far, t_min, t_max),
{
    if lies_between(near, t_min, t_max) {
        Some(near)
    } else if lies_between(far, t_min, t_max) {
        Some(far)
    } else {
        None
    }
}

/// The sphere reports the smallest root that lies in the open interval
/// `(t_min, t_max)`, and reports none only when neither root lies there.
pub proof fn lemma_sphere_takes_nearest_root(near: u64, far: u64, t_min: u64, t_max: u64)
    requires
        rank(near) <= rank(far),
    ensures
        match sphere_root_spec(near, far, t_min, t_max) {
            Some(t) => {
                &&& t == near || t == far
                &&& strictly_between(t, t_min, t_max)
                &&& strictly_between(near, t_min, t_max) ==> rank(t) <= rank(near)
                &&& strictly_between(far, t_min, t_max) ==> rank(t) <= rank(far)
            },
            None => !strictly_between(near, t_min, t_max) && !strictly_between(far, t_min, t_max),
        },
{
}

/// Whether the ray meets the surface from outside: the ray direction and the
/// geometric normal have a negative dot product.
pub open spec fn front_face_spec(dot: u64) -> bool {
    less(dot, ZERO_BITS)
}

/// A vector (a normal, a direction) as the bit patterns of its three components.
#[derive(Debug, Clone, Copy, PartialEq, Eq, Structural)]
pub struct Vec3Bits {
    pub x: u64,
    pub y: u64,
    pub z: u64,
}

/// Orients a geometric normal against the incoming ray, given the dot product
/// of the ray direction with it. Returns whether the ray meets the front face
/// and the stored normal: the geometric one on the front face, its negation
/// otherwise. Unless `dot` is NaN, the stored normal's dot product with the
/// ray direction (`dot` or `-dot`) is not positive.
pub fn orient_normal(normal: Vec3Bits, dot: u64) -> (r: (bool, Vec3Bits))
    ensures
        r.0 == front_face_spec(dot),
        r.0 ==> r.1 == normal,
        !r.0 ==> r.1 == (Vec3Bits {
            x: negation(normal.x),
            y: negation(normal.y),
            z: negation(normal.z),
        }),
        !r.0 ==> rank(r.1.x) == -rank(normal.x) && rank(r.1.y) == -rank(normal.y) && rank(
            r.1.z,
        ) == -rank(normal.z),
        !is_nan(dot) ==> (if r.0 {
            rank(dot) < 0
        } else {
            rank(negation(dot)) <= 0
        }),
{
    let front = float_lt(dot, ZERO_BITS);
    if front {
        (true, normal)
    } else {
        (false, Vec3Bits { x: negate(normal.x), y: negate(normal.y), z: negate(normal.z) })
    }
}

/// The stored normal faces against the ray. On the front face the stored
/// normal is the geometric one and its dot product `dot` with the ray
/// direction is negative. Otherwise the stored normal is the negated one,
/// whose dot product with the direction is `-dot` (negating a factor negates
/// a binary64 product and sum exactly), and `-dot` is not positive.
pub proof fn lemma_stored_normal_faces_ray(dot: u64)
    requires
        !is_nan(dot),
    ensures
        front_face_spec(dot) ==> rank(dot) < 0,
        !front_face_spec(dot) ==> rank(negation(dot)) <= 0,
        !front_face_spec(dot) ==> rank(negation(dot)) == -rank(dot),
{
}

/// Containment in a triangle, in coordinates along its two edges: `u > 0`,
/// `v > 0` and `u + v < 1`, all strict, so the edges themselves are outside.
pub open spec fn in_triangle(u: u64, v: u64, uv_sum: u64) -> bool {
    less(ZERO_BITS, u) && less(ZERO_BITS, v) && less(uv_sum, ONE_BITS)
}

/// Containment in a parallelogram, in coordinates along its two edges: both
/// in the open unit interval.
pub open spec fn in_parallelogram(u: u64, v: u64) -> bool {
    strictly_between(u, ZERO_BITS, ONE_BITS) && strictly_between(v, ZERO_BITS, ONE_BITS)
}

/// Triangle edges are outside: a point with an edge coordinate exactly `0`,
/// or with coordinates summing exactly to `1`, is not contained.
pub proof fn lemma_triangle_edges_are_open(u: u64, v: u64, uv_sum: u64)
    requires
        rank(u) == 0 || rank(v) == 0 || rank(uv_sum) == rank(ONE_BITS),
    ensures
        !in_triangle(u, v, uv_sum),
{
}

/// Parallelogram edges are outside: an edge coordinate exactly `0` or `1`
/// is not contained.
pub proof fn lemma_parallelogram_edges_are_open(u: u64, v: u64)
    requires
        rank(u) == 0 || rank(v) == 0 || rank(u) == rank(ONE_BITS) || rank(v) == rank(ONE_BITS),
    ensures
        !in_parallelogram(u, v),
{
}

/// Whether a triangle reports a hit: the edge coordinates `u`, `v` (with
/// `uv_sum = u + v`) lie inside it and the ray parameter `t` lies in `(t_min, t_max)`.
pub fn triangle_accepts(u: u64, v: u64, uv_sum: u64, t: u64, t_min: u64, t_max: u64) -> (r: bool)
    ensures
        r == (in_triangle(u, v, uv_sum) && strictly_between(t, t_min, t_max)),
{
    float_lt(ZERO_BITS, u) && float_lt(ZERO_BITS, v) && float_lt(uv_sum, ONE_BITS) && lies_between(
        t,
        t_min,
        t_max,
    )
}

/// Whether a parallelogram reports a hit: the edge coordinates `u`, `v` lie in
/// the open unit square and `t` lies in `(t_min, t_max)`.
pub fn parallelogram_accepts(u: u64, v: u64, t: u64, t_min: u64, t_max: u64) -> (r: bool)
    ensures
        r == (in_parallelogram(u, v) && strictly_between(t, t_min, t_max)),
{
    lies_between(u, ZERO_BITS, ONE_BITS) && lies_between(v, ZERO_BITS, ONE_BITS) && lies_between(
        t,
        t_min,
        t_max,
    )
}

/// A hit parameter below the bound `bound` (both as binary64 patterns).
pub open spec fn hit_below(hit: Option<u64>, bound: u64) -> bool {
    match hit {
        Some(t) => less(t, bound),
        None => false,
    }
}

/// The state of the nearest-hit scan after the first `n` primitives: the
/// index of the best hit so far and the shrunken upper bound.
pub open spec fn scan(hits: Seq<Option<u64>>, t_max: u64, n: int) -> (Option<int>, u64)
    decreases n,
{
    if n <= 0 {
        (None, t_max)
    } else {
        let prev = scan(hits, t_max, n - 1);
        if hit_below(hits[n - 1], prev.1) {
            (Some(n - 1), hits[n - 1]->Some_0)
        } else {
            prev
        }
    }
}

/// Which primitive a world reports, given what each primitive reports on the
/// whole interval `(t_min, t_max)`.
pub open spec fn nearest_spec(hits: Seq<Option<u64>>, t_max: u64) -> Option<int> {
    scan(hits, t_max, hits.len() as int).0
}

/// One step of the nearest-hit scan: primitive `index`, queried with the
/// current closest bound `closest`, reported `hit`. A hit below the bound
/// becomes the best one and the bound shrinks to it; otherwise nothing changes.
/// Returns the new best index and the new bound.
pub fn offer_hit(best: Option<usize>, closest: u64, index: usize, hit: Option<u64>) -> (r: (
    Option<usize>,
    u64,
))
    ensures
        hit_below(hit, closest) ==> r == (Some(index), hit->Some_0),
        !hit_below(hit, closest) ==> r == (best, closest),
{
    if let Some(t) = hit {
        if float_lt(t, closest) {
            return (Some(index), t);
        }
    }
    (best, closest)
}

/// The aggregate hit test of a world. `hits[i]` is the ray parameter that
/// primitive `i` reports on `(t_min, t_max)`, if any. The scan keeps a closest
/// bound, starting at `t_max`; a primitive's hit replaces the best one when it
/// lies below that bound, which then shrinks to it. A primitive queried with
/// the shrunken bound reports a hit exactly when its hit on the whole interval
/// lies below the bound, so the index returned is the primitive whose record
/// the world returns.
pub fn nearest_hit(hits: &Vec<Option<u64>>, t_max: u64) -> (r: Option<usize>)
    ensures
        match r {
            Some(k) => nearest_spec(hits@, t_max) == Some(k as int),
            None => nearest_spec(hits@, t_max) is None,
        },
        r is None <==> forall|i: int| 0 <= i < hits@.len() ==> !hit_below(#[trigger] hits@[i], t_max),
        match r {
            Some(k) => {
                &&& k < hits@.len()
                &&& hit_below(hits@[k as int], t_max)
                &&& forall|i: int|
                    0 <= i < hits@.len() && #[trigger] hit_below(hits@[i], t_max) ==> rank(
                        hits@[k as int]->Some_0,
                    ) <= rank(hits@[i]->Some_0)
                &&& forall|i: int|
                    0 <= i < k && #[trigger] hit_below(hits@[i], t_max) ==> rank(
                        hits@[k as int]->Some_0,
                    ) < rank(hits@[i]->Some_0)
            },
            None => true,
        },
{
    let mut best: Option<usize> = None;
    let mut closest: u64 = t_max;
    let mut i: usize = 0;
    while i < hits.len()
        invariant
            i <= hits@.len(),
            scan(hits@, t_max, i as int).1 == closest,
            match best {
                Some(k) => scan(hits@, t_max, i as int).0 == Some(k as int),
                None => scan(hits@, t_max, i as int).0 is None,
            },
        decreases hits@.len() - i,
    {
        let (b, c) = offer_hit(best, closest, i, hits[i]);
        best = b;
        closest = c;
        i = i + 1;
    }
    proof {
        lemma_world_reports_minimum(hits@, t_max);
    }
    best
}

proof fn lemma_scan_invariant(hits: Seq<Option<u64>>, t_max: u64, n: int)
    requires
        0 <= n <= hits.len(),
    ensures
        ({
            let (b, c) = scan(hits, t_max, n);
            match b {
                None => c == t_max && forall|i: int| 0 <= i < n ==> !hit_below(#[trigger] hits[i], t_max),
                Some(k) => {
                    &&& 0 <= k < n
                    &&& hits[k] == Some(c)
                    &&& less(c, t_max)
                    &&& forall|i: int|
                        0 <= i < n && #[trigger] hit_below(hits[i], t_max) ==> rank(c) <= rank(
                            hits[i]->Some_0,
                        )
                    &&& forall|i: int|
                        0 <= i < k && #[trigger] hit_below(hits[i], t_max) ==> rank(c) < rank(
                            hits[i]->Some_0,
                        )
                },
            }
        }),
    decreases n,
{
    if n > 0 {
        lemma_scan_invariant(hits, t_max, n - 1);
    }
}

/// Nearest-hit selection: the world reports a hit exactly when some primitive
/// does below `t_max`; the primitive it reports has the smallest parameter of
/// all, and among equal parameters it is the first in the world's order.
pub proof fn lemma_world_reports_minimum(hits: Seq<Option<u64>>, t_max: u64)
    ensures
        nearest_spec(hits, t_max) is None <==> forall|i: int|
            0 <= i < hits.len() ==> !hit_below(#[trigger] hits[i], t_max),
        match nearest_spec(hits, t_max) {
            Some(k) => {
                &&& 0 <= k < hits.len()
                &&& hit_below(hits[k], t_max)
                &&& forall|i: int|
                    0 <= i < hits.len() && #[trigger] hit_below(hits[i], t_max) ==> rank(
                        hits[k]->Some_0,
                    ) <= rank(hits[i]->Some_0)
                &&& forall|i: int|
                    0 <= i < k && #[trigger] hit_below(hits[i], t_max) ==> rank(hits[k]->Some_0)
                        < rank(hits[i]->Some_0)
            },
            None => true,
        },
{
    lemma_scan_invariant(hits, t_max, hits.len() as int);
}

/// Nearest-hit selection when every primitive reports only hits below
/// `t_max`, as a primitive queried on `(t_min, t_max)` does: the world reports
/// nothing exactly when no primitive reports a hit, and otherwise the hit with
/// the smallest parameter, the first in the world's order among equal ones.
pub proof fn lemma_world_reports_minimum_of_reported(hits: Seq<Option<u64>>, t_max: u64)
    requires
        forall|i: int|
            0 <= i < hits.len() && (#[trigger] hits[i]) is Some ==> less(hits[i]->Some_0, t_max),
    ensures
        nearest_spec(hits, t_max) is None <==> forall|i: int|
            0 <= i < hits.len() ==> (#[trigger] hits[i]) is None,
        match nearest_spec(hits, t_max) {
            Some(k) => {
                &&& 0 <= k < hits.len()
                &&& hits[k] is Some
                &&& forall|i: int|
                    0 <= i < hits.len() && (#[trigger] hits[i]) is Some ==> rank(hits[k]->Some_0)
                        <= rank(hits[i]->Some_0)
                &&& forall|i: int|
                    0 <= i < k && (#[trigger] hits[i]) is Some ==> rank(hits[k]->Some_0) < rank(
                        hits[i]->Some_0,
                    )
            },
            None => true,
        },
{
    lemma_world_reports_minimum(hits, t_max);
    assert forall|i: int| 0 <= i < hits.len() implies (#[trigger] hits[i]) is Some <==> hit_below(
        hits[i],
        t_max,
    ) by {}
}

} // verus!
