//! Common math functions.

use vstd::prelude::*;
use crate::math::vector::Vec2;

verus! {

/// Integer division rounding towards zero, as Rust's `/` does.
pub open spec fn div_trunc(a: int, b: int) -> int {
    let q = (if a < 0 { -a } else { a }) / (if b < 0 { -b } else { b });
    if (a < 0) != (b < 0) { -q } else { q }
}

/// Dividing by a negative divisor negates the quotient by its absolute value.
proof fn lemma_div_negative_divisor(x: int, b: int)
    requires
        x >= 0,
        b < 0,
    ensures
        x / b == -(x / (-b)),
{
    let q = x / (-b);
    let r = x % (-b);
    vstd::arithmetic::div_mod::lemma_fundamental_div_mod(x, -b);
    vstd::arithmetic::div_mod::lemma_mod_pos_bound(x, -b);
    assert(x / b == -q) by (nonlinear_arith)
        requires
            x == (-b) * q + r,
            0 <= r < -b,
            b < 0,
    ;
}

/// `checked_div` on `i64` gives the quotient rounded towards zero whenever it
/// does not overflow.
proof fn lemma_checked_div_is_trunc(a: i64, b: i64)
    requires
        b != 0,
        !(a == i64::MIN && b == -1),
    ensures
        a.checked_div(b) == Some(div_trunc(a as int, b as int) as i64),
        i64::MIN <= div_trunc(a as int, b as int) <= i64::MAX,
{
    let x = a as int;
    let d = b as int;
    let ax = if x < 0 { -x } else { x };
    let ad = if d < 0 { -d } else { d };
    vstd::arithmetic::div_mod::lemma_div_basics_4(ax, ad);
    vstd::arithmetic::div_mod::lemma_div_basics_5(ax, ad);
    if d < 0 {
        lemma_div_negative_divisor(ax, d);
    }
    if ad >= 2 {
        vstd::arithmetic::div_mod::lemma_div_is_ordered_by_denominator(ax, 2, ad);
    }
    assert(x * -1 == -x);
    assert(d * -1 == -d);
}

/// True when `v` fits in an `i32`.
pub open spec fn fits(v: int) -> bool {
    i32::MIN <= v <= i32::MAX
}

/// One step of the circle walk from `(x, y)` with the error term `t1`: `y`
/// goes up by one, the error term grows by the new `y`, and when it then
/// reaches `x`, `x` goes down by one and the error term drops by `x`.
pub open spec fn circle_step(x: int, y: int, t1: int) -> (int, int, int) {
    let y2 = y + 1;
    let t = t1 + y2;
    if t - x >= 0 { (x - 1, y2, t - x) } else { (x, y2, t) }
}

/// The points of one octant that the circle walk visits from `(x, y)` with
/// the error term `t1`, relative to the centre, while `x` is at least `y`.
pub open spec fn circle_points(x: int, y: int, t1: int) -> Seq<(int, int)>
    decreases x - y + 2,
{
    if x < y {
        seq![]
    } else {
        let (x2, y2, t2) = circle_step(x, y, t1);
        seq![(x, y)] + circle_points(x2, y2, t2)
    }
}

/// The eight points that mirror the octant point `(x, y)` around the centre
/// `c` into every octant.
pub open spec fn mirrored(c: (int, int), x: int, y: int) -> Seq<(int, int)> {
    seq![
        (c.0 + x, c.1 + y),
        (c.0 + y, c.1 + x),
        (c.0 - y, c.1 + x),
        (c.0 - x, c.1 + y),
        (c.0 - x, c.1 - y),
        (c.0 - y, c.1 - x),
        (c.0 + y, c.1 - x),
        (c.0 + x, c.1 - y),
    ]
}

/// The outline that the walk from `(x, y)` with the error term `t1` draws
/// around `c`: each octant point, mirrored into the eight octants.
pub open spec fn outline_points(c: (int, int), x: int, y: int, t1: int) -> Seq<(int, int)>
    decreases x - y + 2,
{
    if x < y {
        seq![]
    } else {
        let (x2, y2, t2) = circle_step(x, y, t1);
        mirrored(c, x, y) + outline_points(c, x2, y2, t2)
    }
}

/// The radius as the signed value with the same bits.
pub open spec fn signed_radius(r: u32) -> int {
    r as i32 as int
}

/// The outline of the circle around `c` with the radius `r`: empty for a
/// negative radius, else the walk from `(r, 0)` with the error term `r / 16`.
pub open spec fn circle_outline(c: (int, int), r: int) -> Seq<(int, int)> {
    if r < 0 {
        seq![]
    } else {
        outline_points(c, r, 0, r / 16)
    }
}

/// True when every point of the outline around `pos` fits in an `i32`: the
/// radius is negative, or the centre plus or minus the radius fits on both
/// axes.
pub open spec fn circle_in_range(pos: Vec2<i32>, r: int) -> bool {
    r < 0 || (fits(pos.x - r) && fits(pos.x + r) && fits(pos.y - r) && fits(pos.y + r))
}

/// What holds of the walk's state for the radius `r`, with `q` the initial
/// error term: the bounds that keep the walk's arithmetic small, and the
/// relation of the error term to how far `(x, y)` lies from the circle.
pub open spec fn walk_inv(r: int, q: int, x: int, y: int, t1: int) -> bool {
    &&& 0 <= 16 * q <= r
    &&& 0 <= y <= x + 2
    &&& x <= r
    &&& 0 <= t1 <= r + y
    &&& (t1 < x || t1 <= y)
    &&& x * x + y * y - r * r == 2 * t1 - x - y + r - 2 * q
}

/// A step of the walk from a point with `x` at least `y` keeps its state's
/// invariant.
proof fn lemma_walk_step(r: int, q: int, x: int, y: int, t1: int)
    requires
        walk_inv(r, q, x, y, t1),
        y <= x,
    ensures
        ({
            let (x2, y2, t2) = circle_step(x, y, t1);
            walk_inv(r, q, x2, y2, t2)
        }),
{
    let y2 = y + 1;
    let t = t1 + y2;
    assert(y2 * y2 == y * y + 2 * y + 1) by (nonlinear_arith)
        requires
            y2 == y + 1,
    ;
    assert((x - 1) * (x - 1) == x * x - 2 * x + 1) by (nonlinear_arith);
}

/// The points of the walk lie between the circles of radius `r - 1` and
/// `r + 1`, the first excluded when `r` is at least 1; there are at most
/// `x - y + 1` of them.
proof fn lemma_walk_points(r: int, q: int, x: int, y: int, t1: int)
    requires
        walk_inv(r, q, x, y, t1),
    ensures
        circle_points(x, y, t1).len() <= if x - y + 1 >= 0 { x - y + 1 } else { 0 },
        forall|i: int|
            0 <= i < circle_points(x, y, t1).len() ==> {
                let (px, py) = #[trigger] circle_points(x, y, t1)[i];
                &&& 0 <= py <= px
                &&& px * px + py * py < (r + 1) * (r + 1)
                &&& (r >= 1 ==> px * px + py * py > (r - 1) * (r - 1))
            },
    decreases x - y + 2,
{
    if x >= y {
        let (x2, y2, t2) = circle_step(x, y, t1);
        lemma_walk_step(r, q, x, y, t1);
        lemma_walk_points(r, q, x2, y2, t2);
        assert(x * x + y * y < (r + 1) * (r + 1)) by (nonlinear_arith)
            requires
                x * x + y * y - r * r == 2 * t1 - x - y + r - 2 * q,
                t1 <= x,
                0 <= y <= x <= r,
                0 <= q,
        ;
        if r >= 1 {
            if x == r {
                assert(x * x + y * y > (r - 1) * (r - 1)) by (nonlinear_arith)
                    requires
                        x == r,
                        r >= 1,
                ;
            } else {
                assert(x * x + y * y > (r - 1) * (r - 1)) by (nonlinear_arith)
                    requires
                        x * x + y * y - r * r == 2 * t1 - x - y + r - 2 * q,
                        0 <= t1,
                        0 <= y <= x <= r - 1,
                        0 <= 16 * q <= r,
                        r >= 1,
                ;
            }
        }
        let rest = circle_points(x2, y2, t2);
        assert(circle_points(x, y, t1) == seq![(x, y)] + rest);
        assert forall|i: int| 0 <= i < circle_points(x, y, t1).len() implies {
            let (px, py) = #[trigger] circle_points(x, y, t1)[i];
            &&& 0 <= py <= px
            &&& px * px + py * py < (r + 1) * (r + 1)
            &&& (r >= 1 ==> px * px + py * py > (r - 1) * (r - 1))
        } by {
            if i > 0 {
                assert(circle_points(x, y, t1)[i] == rest[i - 1]);
            }
        }
    }
}

/// The outline is the octant walk's points, each mirrored into the eight
/// octants.
proof fn lemma_outline_mirrors(c: (int, int), x: int, y: int, t1: int)
    ensures
        outline_points(c, x, y, t1).len() == 8 * circle_points(x, y, t1).len(),
        forall|i: int|
            0 <= i < outline_points(c, x, y, t1).len() ==> #[trigger] outline_points(c, x, y, t1)[i]
                == mirrored(c, circle_points(x, y, t1)[i / 8].0, circle_points(x, y, t1)[i / 8].1)[i % 8],
    decreases x - y + 2,
{
    if x >= y {
        let (x2, y2, t2) = circle_step(x, y, t1);
        lemma_outline_mirrors(c, x2, y2, t2);
        let rest = outline_points(c, x2, y2, t2);
        assert forall|i: int| 0 <= i < outline_points(c, x, y, t1).len() implies #[trigger] outline_points(c, x, y, t1)[i]
            == mirrored(c, circle_points(x, y, t1)[i / 8].0, circle_points(x, y, t1)[i / 8].1)[i % 8] by {
            if i >= 8 {
                assert(outline_points(c, x, y, t1)[i] == rest[i - 8]);
                assert((i - 8) / 8 == i / 8 - 1 && (i - 8) % 8 == i % 8);
                assert(circle_points(x, y, t1)[i / 8] == circle_points(x2, y2, t2)[(i - 8) / 8]);
            }
        }
    }
}

/// Every point of the outline of a circle lies within 1 of the radius from
/// the centre: its squared distance is below `(r + 1)²` and, for a radius of
/// at least 1, above `(r - 1)²`. There are at most `8 * (r + 1)` points.
pub proof fn lemma_outline_near_circle(c: (int, int), r: int)
    ensures
        circle_outline(c, r).len() <= 8 * (if r >= 0 { r + 1 } else { 0 }),
        forall|i: int|
            0 <= i < circle_outline(c, r).len() ==> {
                let (px, py) = #[trigger] circle_outline(c, r)[i];
                let d = (px - c.0) * (px - c.0) + (py - c.1) * (py - c.1);
                &&& d < (r + 1) * (r + 1)
                &&& (r >= 1 ==> d > (r - 1) * (r - 1))
            },
{
    if r >= 0 {
        let q = r / 16;
        assert(r * r - r * r == 0) by (nonlinear_arith);
        assert(walk_inv(r, q, r, 0, q)) by (nonlinear_arith)
            requires
                r >= 0,
                q == r / 16,
        ;
        lemma_walk_points(r, q, r, 0, q);
        lemma_outline_mirrors(c, r, 0, q);
        let pts = circle_points(r, 0, q);
        assert forall|i: int| 0 <= i < circle_outline(c, r).len() implies {
            let (px, py) = #[trigger] circle_outline(c, r)[i];
            let d = (px - c.0) * (px - c.0) + (py - c.1) * (py - c.1);
            &&& d < (r + 1) * (r + 1)
            &&& (r >= 1 ==> d > (r - 1) * (r - 1))
        } by {
            let k = i / 8;
            let (x, y) = pts[k];
            assert(0 <= k < pts.len()) by (nonlinear_arith)
                requires
                    0 <= i < 8 * pts.len(),
                    k == i / 8,
            ;
            let (px, py) = circle_outline(c, r)[i];
            let m = i % 8;
            let dx = px - c.0;
            let dy = py - c.1;
            assert(circle_outline(c, r)[i] == mirrored(c, x, y)[m]);
            assert(((dx == x || dx == -x) && (dy == y || dy == -y)) || ((dx == y || dx == -y) && (dy == x || dy == -x))) by {
                if m == 0 {
                } else if m == 1 {
                } else if m == 2 {
                } else if m == 3 {
                } else if m == 4 {
                } else if m == 5 {
                } else if m == 6 {
                } else {
                    assert(m == 7);
                }
            }
            assert(dx * dx + dy * dy == x * x + y * y) by (nonlinear_arith)
                requires
                    ((dx == x || dx == -x) && (dy == y || dy == -y)) || ((dx == y || dx == -y) && (dy == x || dy == -x)),
            ;
        }
    }
}

/// The shape of the octant walk from a point with `x` at least `y`: it
/// starts at that point, each step moves `y` up by one and `x` down by at
/// most one, every point has `y` at most `x`, and the walk only stops once
/// the next step would cross the diagonal, so its last point has
/// `0 <= x - y <= 1`.
proof fn lemma_walk_shape(x: int, y: int, t1: int)
    requires
        y <= x,
    ensures
        circle_points(x, y, t1).len() >= 1,
        circle_points(x, y, t1)[0] == (x, y),
        forall|i: int|
            0 <= i < circle_points(x, y, t1).len() ==> #[trigger] circle_points(x, y, t1)[i].1
                <= circle_points(x, y, t1)[i].0,
        forall|i: int, j: int|
            #![trigger circle_points(x, y, t1)[i], circle_points(x, y, t1)[j]]
            0 <= i && j == i + 1 && j < circle_points(x, y, t1).len() ==> {
                &&& circle_points(x, y, t1)[j].1 == circle_points(x, y, t1)[i].1 + 1
                &&& (circle_points(x, y, t1)[j].0 == circle_points(x, y, t1)[i].0
                    || circle_points(x, y, t1)[j].0 == circle_points(x, y, t1)[i].0 - 1)
            },
        0 <= circle_points(x, y, t1).last().0 - circle_points(x, y, t1).last().1 <= 1,
    decreases x - y + 2,
{
    let (x2, y2, t2) = circle_step(x, y, t1);
    let pts = circle_points(x, y, t1);
    let rest = circle_points(x2, y2, t2);
    assert(pts == seq![(x, y)] + rest);
    if x2 >= y2 {
        lemma_walk_shape(x2, y2, t2);
        assert(pts.last() == rest.last());
        assert forall|i: int| 0 <= i < pts.len() implies #[trigger] pts[i].1 <= pts[i].0 by {
            if i > 0 {
                assert(pts[i] == rest[i - 1]);
            }
        }
        assert forall|i: int, j: int|
            #![trigger pts[i], pts[j]]
            0 <= i && j == i + 1 && j < pts.len() implies {
                &&& pts[j].1 == pts[i].1 + 1
                &&& (pts[j].0 == pts[i].0 || pts[j].0 == pts[i].0 - 1)
            } by {
            assert(pts[j] == rest[j - 1]);
            if i > 0 {
                assert(pts[i] == rest[i - 1]);
            } else {
                assert(rest[0] == (x2, y2));
            }
        }
    } else {
        assert(rest.len() == 0);
        assert(pts.len() == 1);
    }
}

/// The octant walk of a circle goes on while `x` is at least `y`, the point
/// on the diagonal included. For a radius `r` of at least 0 it starts at
/// `(r, 0)`; each step moves `y` up by one and `x` down by at most one; every
/// point has `y` at most `x`; and its last point lies on the diagonal or
/// next to it (`0 <= x - y <= 1`), so the eight mirrored octants of the
/// outline meet. The outline holds each octant point mirrored into the eight
/// octants, in the walk's order.
pub proof fn lemma_outline_reaches_diagonal(c: (int, int), r: int)
    requires
        r >= 0,
    ensures
        circle_outline(c, r).len() == 8 * circle_points(r, 0, r / 16).len(),
        forall|i: int|
            0 <= i < circle_outline(c, r).len() ==> #[trigger] circle_outline(c, r)[i] == mirrored(
                c,
                circle_points(r, 0, r / 16)[i / 8].0,
                circle_points(r, 0, r / 16)[i / 8].1,
            )[i % 8],
        circle_points(r, 0, r / 16).len() >= 1,
        circle_points(r, 0, r / 16)[0] == (r, 0int),
        forall|i: int|
            0 <= i < circle_points(r, 0, r / 16).len() ==> #[trigger] circle_points(r, 0, r / 16)[i].1
                <= circle_points(r, 0, r / 16)[i].0,
        forall|i: int, j: int|
            #![trigger circle_points(r, 0, r / 16)[i], circle_points(r, 0, r / 16)[j]]
            0 <= i && j == i + 1 && j < circle_points(r, 0, r / 16).len() ==> {
                &&& circle_points(r, 0, r / 16)[j].1 == circle_points(r, 0, r / 16)[i].1 + 1
                &&& (circle_points(r, 0, r / 16)[j].0 == circle_points(r, 0, r / 16)[i].0
                    || circle_points(r, 0, r / 16)[j].0 == circle_points(r, 0, r / 16)[i].0 - 1)
            },
        0 <= circle_points(r, 0, r / 16).last().0 - circle_points(r, 0, r / 16).last().1 <= 1,
{
    lemma_outline_mirrors(c, r, 0, r / 16);
    lemma_walk_shape(r, 0, r / 16);
}

/// The outline around `c` is the outline around the origin moved by `c`:
/// which points are drawn does not depend on where the centre is.
pub proof fn lemma_outline_shift(c: (int, int), r: int)
    ensures
        circle_outline(c, r).len() == circle_outline((0, 0), r).len(),
        forall|i: int|
            0 <= i < circle_outline(c, r).len() ==> #[trigger] circle_outline(c, r)[i] == (
                circle_outline((0, 0), r)[i].0 + c.0,
                circle_outline((0, 0), r)[i].1 + c.1,
            ),
{
    if r >= 0 {
        let q = r / 16;
        lemma_outline_mirrors(c, r, 0, q);
        lemma_outline_mirrors((0, 0), r, 0, q);
    }
}

/// Outlines a circle around `pos` with radius `r`, based on the [midpoint
/// circle algorithm] (Jesko's method), and returns the points in the order
/// drawn. The radius is reinterpreted as signed; a negative radius draws
/// nothing.
///
/// The walk runs over one octant relative to the centre: from `(r, 0)` with
/// the error term `r / 16`, while `x` is at least `y`. Each point it visits
/// is drawn in all eight octants.
///
/// [midpoint circle algorithm]: https://en.wikipedia.org/wiki/Midpoint_circle_algorithm#Jesko's_method
pub fn bresenham_circle(pos: Vec2<i32>, r: u32) -> (points: Vec<Vec2<i32>>)
    requires
        circle_in_range(pos, signed_radius(r)),
    ensures
        points@.map_values(|p: Vec2<i32>| (p.x as int, p.y as int)) == circle_outline(
            (pos.x as int, pos.y as int),
            signed_radius(r),
        ),
{
    let mut points: Vec<Vec2<i32>> = Vec::new();
    let sr = r as i32;
    if sr < 0 {
        proof {
            assert(points@.map_values(|p: Vec2<i32>| (p.x as int, p.y as int)) =~= Seq::<(int, int)>::empty());
        }
        return points;
    }
    let r0 = sr as i64;
    let mut x: i64 = r0;
    let mut y: i64 = 0;
    let mut t1: i64 = r0 / 16;
    let ghost c = (pos.x as int, pos.y as int);
    let ghost q = t1 as int;
    proof {
        assert(x * x + y * y - r0 * r0 == 2 * t1 - x - y + r0 - 2 * q) by (nonlinear_arith)
            requires
                x == r0,
                y == 0,
                t1 == q,
        ;
    }
    while x >= y
        invariant
            r0 == signed_radius(r),
            0 <= r0 <= i32::MAX,
            q == r0 / 16,
            c == (pos.x as int, pos.y as int),
            circle_in_range(pos, r0 as int),
            walk_inv(r0 as int, q, x as int, y as int, t1 as int),
            outline_points(c, r0 as int, 0, q) == points@.map_values(|p: Vec2<i32>| (p.x as int, p.y as int))
                + outline_points(c, x as int, y as int, t1 as int),
        decreases x - y + 2,
    {
        let ghost before = points@;
        let ghost here = (x as int, y as int, t1 as int);
        let xi = x as i32;
        let yi = y as i32;
        points.push(Vec2 { x: pos.x + xi, y: pos.y + yi });
        points.push(Vec2 { x: pos.x + yi, y: pos.y + xi });
        points.push(Vec2 { x: pos.x - yi, y: pos.y + xi });
        points.push(Vec2 { x: pos.x - xi, y: pos.y + yi });
        points.push(Vec2 { x: pos.x - xi, y: pos.y - yi });
        points.push(Vec2 { x: pos.x - yi, y: pos.y - xi });
        points.push(Vec2 { x: pos.x + yi, y: pos.y - xi });
        points.push(Vec2 { x: pos.x + xi, y: pos.y - yi });
        proof {
            lemma_walk_step(r0 as int, q, x as int, y as int, t1 as int);
        }
        y = y + 1;
        t1 = t1 + y;
        let t2 = t1 - x;
        if t2 >= 0 {
            t1 = t2;
            x = x - 1;
        }
        proof {
            let f = |p: Vec2<i32>| (p.x as int, p.y as int);
            assert(points@.map_values(f) =~= before.map_values(f) + mirrored(c, here.0, here.1));
            assert(outline_points(c, here.0, here.1, here.2) == mirrored(c, here.0, here.1) + outline_points(
                c,
                x as int,
                y as int,
                t1 as int,
            ));
            assert(before.map_values(f) + outline_points(c, here.0, here.1, here.2) =~= points@.map_values(f)
                + outline_points(c, x as int, y as int, t1 as int));
        }
    }
    proof {
        assert(points@.map_values(|p: Vec2<i32>| (p.x as int, p.y as int)) + Seq::<(int, int)>::empty()
            =~= points@.map_values(|p: Vec2<i32>| (p.x as int, p.y as int)));
    }
    points
}

/// Outlines the same circle as [`bresenham_circle`], or returns `None`
/// exactly when some point of it would not fit in an `i32`, where
/// [`bresenham_circle`] cannot be called.
pub fn checked_bresenham_circle(pos: Vec2<i32>, r: u32) -> (points: Option<Vec<Vec2<i32>>>)
    ensures
        match points {
            Some(ps) => circle_in_range(pos, signed_radius(r)) && ps@.map_values(
                |p: Vec2<i32>| (p.x as int, p.y as int),
            ) == circle_outline((pos.x as int, pos.y as int), signed_radius(r)),
            None => !circle_in_range(pos, signed_radius(r)),
        },
{
    let sr = r as i32;
    if sr >= 0 {
        if pos.x.checked_sub(sr).is_none() || pos.x.checked_add(sr).is_none() || pos.y.checked_sub(sr).is_none()
            || pos.y.checked_add(sr).is_none() {
            return None;
        }
    }
    Some(bresenham_circle(pos, r))
}

/// Maps a value from one range to another: the value's offset into `from`
/// is scaled by the ratio of the lengths of `to` and `from`, then added to
/// the start of `to`. The scaling multiplies first and then divides,
/// rounding towards zero.
pub fn remap(v: i64, from: std::ops::Range<i64>, to: std::ops::Range<i64>) -> (r: i64)
    requires
        from.end != from.start,
        i64::MIN <= v - from.start <= i64::MAX,
        i64::MIN <= from.end - from.start <= i64::MAX,
        i64::MIN <= to.end - to.start <= i64::MAX,
        i64::MIN <= (v - from.start) * (to.end - to.start) <= i64::MAX,
        !((v - from.start) * (to.end - to.start) == i64::MIN && from.end - from.start == -1),
        i64::MIN <= div_trunc((v - from.start) * (to.end - to.start), from.end - from.start) + to.start <= i64::MAX,
    ensures
        r == div_trunc((v - from.start) * (to.end - to.start), from.end - from.start) + to.start,
{
    let offset = v - from.start;
    let scaled = offset * (to.end - to.start);
    let len = from.end - from.start;
    proof {
        lemma_checked_div_is_trunc(scaled, len);
    }
    let q = scaled.checked_div(len).unwrap();
    q + to.start
}

} // verus!
