//! Whether a centre of gravity lies inside the six-sided envelope.
//!
//! The envelope lives in the lever/weight plane: a vertex is the point
//! `(lever, weight)`. The query point is a [`CgPoint`], whose lever
//! `torque / weight` need not be a whole number; every test below is
//! therefore scaled by the point's (positive) weight and stays exact.

use vstd::prelude::*;

use crate::aggregate::{CgPoint, WeightLever};
use crate::fail_reason::FailReason;

verus! {

/// Number of vertices of an envelope.
pub const VERTEX_COUNT: usize = 6;

/// The cross product of `b - a` and `p - a`, multiplied by `p.weight`.
///
/// Positive when `p` lies to the left of the directed edge `a -> b`,
/// negative to its right, zero when the three points are collinear.
pub open spec fn side(a: WeightLever, b: WeightLever, p: CgPoint) -> int {
    let w = p.weight as int;
    (b.lever - a.lever) * (w - a.weight) * w - (b.weight - a.weight) * (p.torque - a.lever * w)
}

pub open spec fn min(x: int, y: int) -> int {
    if x <= y {
        x
    } else {
        y
    }
}

pub open spec fn max(x: int, y: int) -> int {
    if x <= y {
        y
    } else {
        x
    }
}

/// Whether `p` lies on the closed segment from `a` to `b`.
pub open spec fn on_segment(a: WeightLever, b: WeightLever, p: CgPoint) -> bool {
    let w = p.weight as int;
    &&& side(a, b, p) == 0
    &&& min(a.lever as int, b.lever as int) * w <= p.torque <= max(a.lever as int, b.lever as int) * w
    &&& min(a.weight as int, b.weight as int) <= w <= max(a.weight as int, b.weight as int)
}

/// How the edge `a -> b` crosses the horizontal ray from `p` towards
/// greater levers: `1` upwards with `p` on its left, `-1` downwards with
/// `p` on its right, else `0`.
pub open spec fn crossing(a: WeightLever, b: WeightLever, p: CgPoint) -> int {
    let w = p.weight as int;
    if a.weight <= w < b.weight && side(a, b, p) > 0 {
        1
    } else if b.weight <= w < a.weight && side(a, b, p) < 0 {
        -1
    } else {
        0
    }
}

/// The `i`-th edge of the closed polygon `vs` ends at vertex `(i + 1) % len`.
pub open spec fn next_vertex(vs: Seq<WeightLever>, i: int) -> WeightLever {
    vs[(i + 1) % (vs.len() as int)]
}

/// Sum of the crossings of the first `n` edges of `vs`.
pub open spec fn winding_upto(vs: Seq<WeightLever>, p: CgPoint, n: nat) -> int
    decreases n,
{
    if n == 0 {
        0
    } else {
        winding_upto(vs, p, (n - 1) as nat) + crossing(vs[n - 1], next_vertex(vs, n - 1), p)
    }
}

/// How many times the closed polygon `vs` winds around `p`.
pub open spec fn winding_number(vs: Seq<WeightLever>, p: CgPoint) -> int {
    winding_upto(vs, p, vs.len())
}

/// Whether `p` lies on an edge of the closed polygon `vs` (vertices included).
pub open spec fn on_boundary(vs: Seq<WeightLever>, p: CgPoint) -> bool {
    exists|i: int| 0 <= i < vs.len() && on_segment(vs[i], #[trigger] next_vertex(vs, i), p)
}

/// Whether the envelope `vs` admits `p`: a point on the boundary is admitted
/// exactly when `valid_border` is set, any other point when the envelope
/// winds around it.
pub open spec fn envelope_admits(vs: Seq<WeightLever>, p: CgPoint, valid_border: bool) -> bool {
    if on_boundary(vs, p) {
        valid_border
    } else {
        winding_number(vs, p) != 0
    }
}

/// The verdict of the containment test: admitted, or out of bounds.
pub open spec fn containment(vs: Seq<WeightLever>, p: CgPoint, valid_border: bool) -> Result<(), FailReason> {
    if envelope_admits(vs, p, valid_border) {
        Ok(())
    } else {
        Err(FailReason::TorqueOutOfBounds)
    }
}

proof fn lemma_mul_abs_bound(x: int, y: int, bx: int, by: int)
    requires
        -bx <= x <= bx,
        -by <= y <= by,
    ensures
        -(bx * by) <= x * y <= bx * by,
{
    assert(-(bx * by) <= x * y <= bx * by) by (nonlinear_arith)
        requires
            -bx <= x <= bx,
            -by <= y <= by,
    ;
}

/// Computes [`side`] without overflow.
fn side_exec(a: WeightLever, b: WeightLever, p: CgPoint) -> (r: i128)
    requires
        p.wf(),
    ensures
        r == side(a, b, p),
{
    let w = p.weight as i128;
    let ex = b.lever as i128 - a.lever as i128;
    let ey = b.weight as i128 - a.weight as i128;
    let dy = w - a.weight as i128;
    proof {
        lemma_mul_abs_bound(a.lever as int, w as int, 0x8000_0000, 0x10_0000_0000);
        assert(-0x8_0000_0000_0000_0000 <= (a.lever as i128) * w <= 0x8_0000_0000_0000_0000);
    }
    let aw = a.lever as i128 * w;
    let dx = p.torque - aw;
    proof {
        lemma_mul_abs_bound(ex as int, dy as int, 0x1_0000_0000, 0x11_0000_0000);
    }
    let f = ex * dy;
    proof {
        lemma_mul_abs_bound(f as int, w as int, 0x11_0000_0000_0000_0000, 0x10_0000_0000);
        lemma_mul_abs_bound(ey as int, dx as int, 0x1_0000_0000, 0x10_0000_0000_0000_0000);
    }
    f * w - ey * dx
}

/// Computes [`on_segment`].
fn on_segment_exec(a: WeightLever, b: WeightLever, p: CgPoint) -> (r: bool)
    requires
        p.wf(),
    ensures
        r == on_segment(a, b, p),
{
    let w = p.weight as i128;
    let (lo_l, hi_l) = if a.lever <= b.lever {
        (a.lever, b.lever)
    } else {
        (b.lever, a.lever)
    };
    let (lo_w, hi_w) = if a.weight <= b.weight {
        (a.weight, b.weight)
    } else {
        (b.weight, a.weight)
    };
    proof {
        lemma_mul_abs_bound(lo_l as int, w as int, 0x8000_0000, 0x10_0000_0000);
        lemma_mul_abs_bound(hi_l as int, w as int, 0x8000_0000, 0x10_0000_0000);
    }
    side_exec(a, b, p) == 0 && lo_l as i128 * w <= p.torque && p.torque <= hi_l as i128 * w
        && lo_w as i64 <= p.weight && p.weight <= hi_w as i64
}

/// Computes [`crossing`].
fn crossing_exec(a: WeightLever, b: WeightLever, p: CgPoint) -> (r: i8)
    requires
        p.wf(),
    ensures
        r == crossing(a, b, p),
{
    let w = p.weight;
    if a.weight as i64 <= w && w < b.weight as i64 {
        if side_exec(a, b, p) > 0 {
            return 1;
        }
    } else if b.weight as i64 <= w && w < a.weight as i64 {
        if side_exec(a, b, p) < 0 {
            return -1;
        }
    }
    0
}

/// Tests whether `point` lies inside the envelope `vertices`.
///
/// The edges are visited in order; a point found on an edge (a vertex
/// included) is accepted exactly when `valid_border` is set. Any other point
/// is inside when the envelope winds around it.
pub fn is_inside_polygon(point: CgPoint, vertices: &[WeightLever; 6], valid_border: bool) -> (r: Result<(), FailReason>)
    requires
        point.wf(),
    ensures
        r == containment(vertices@, point, valid_border),
{
    let mut sum: i8 = 0;
    let mut i: usize = 0;
    while i < VERTEX_COUNT
        invariant
            i <= VERTEX_COUNT,
            vertices@.len() == VERTEX_COUNT,
            point.wf(),
            sum == winding_upto(vertices@, point, i as nat),
            -(i as int) <= sum <= i,
            forall|j: int| 0 <= j < i ==> !on_segment(vertices@[j], #[trigger] next_vertex(vertices@, j), point),
        decreases VERTEX_COUNT - i,
    {
        let v0 = vertices[i];
        let v1 = vertices[(i + 1) % VERTEX_COUNT];
        assert(v1 == next_vertex(vertices@, i as int));
        if on_segment_exec(v0, v1, point) {
            if valid_border {
                return Ok(());
            } else {
                return Err(FailReason::TorqueOutOfBounds);
            }
        }
        sum = sum + crossing_exec(v0, v1, point);
        i = i + 1;
    }
    if sum == 0 {
        return Err(FailReason::TorqueOutOfBounds);
    }
    Ok(())
}

/// A test of containment decides its verdict from the point, the envelope
/// and the border flag alone: running it twice gives the same answer.
pub proof fn lemma_containment_idempotent(
    point: CgPoint,
    vertices: [WeightLever; 6],
    valid_border: bool,
    first: Result<(), FailReason>,
    second: Result<(), FailReason>,
)
    requires
        is_inside_polygon.ensures((point, &vertices, valid_border), first),
        is_inside_polygon.ensures((point, &vertices, valid_border), second),
    ensures
        first == second,
{
}

/// A point that coincides with a vertex of the envelope lies on its
/// boundary, so the border flag alone decides whether it is admitted.
pub proof fn lemma_vertex_on_boundary(vertices: [WeightLever; 6], i: int, point: CgPoint, valid_border: bool)
    requires
        0 <= i < VERTEX_COUNT,
        point.weight == vertices@[i].weight,
        point.torque == vertices@[i].weight * vertices@[i].lever,
        point.wf(),
    ensures
        on_boundary(vertices@, point),
        envelope_admits(vertices@, point, valid_border) == valid_border,
{
    let vs = vertices@;
    let a = vs[i];
    let b = next_vertex(vs, i);
    let w = point.weight as int;
    let (al, bl) = (a.lever as int, b.lever as int);
    assert(side(a, b, point) == 0) by (nonlinear_arith)
        requires
            w == a.weight,
            point.torque == a.weight * a.lever,
            side(a, b, point) == (b.lever - a.lever) * (w - a.weight) * w - (b.weight - a.weight) * (
            point.torque - a.lever * w),
    ;
    assert(min(al, bl) * w <= point.torque <= max(al, bl) * w) by (nonlinear_arith)
        requires
            w > 0,
            w == a.weight,
            al == a.lever,
            point.torque == a.weight * a.lever,
            min(al, bl) <= al <= max(al, bl),
    ;
    assert(on_segment(a, b, point));
}

} // verus!
