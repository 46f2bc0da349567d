//! Geometry predicates: exact hit tests on a fixed-point coordinate grid.
//!
//! Every test is decided in integer arithmetic. Where the usual statement
//! divides (a midpoint, a radius, a normalised projection) the inequality is
//! multiplied out, so no rounding takes place.

use vstd::prelude::*;
use vstd::math::{max, min};

verus! {

/// Coordinate steps per surface unit. Positions and sizes are fixed-point
/// numbers with three decimal places, so `1500` stands for one and a half units.
pub const UNIT: i32 = 1000;

/// A position on the capture surface.
#[derive(Clone, Copy, Debug, PartialEq, Eq, Structural)]
pub struct Point {
    pub x: i32,
    pub y: i32,
}

/// The extent of the capture surface.
#[derive(Clone, Copy, Debug, PartialEq, Eq, Structural)]
pub struct Size {
    pub width: i32,
    pub height: i32,
}

/// A box given by one corner and a signed size. A negative width or height
/// means the box extends to the left of or above that corner.
#[derive(Clone, Copy, Debug, PartialEq, Eq, Structural)]
pub struct Rect {
    pub x: i32,
    pub y: i32,
    pub width: i32,
    pub height: i32,
}

/// The four sides of an axis-aligned box.
#[derive(Clone, Copy, Debug, PartialEq, Eq, Structural)]
pub struct Edges {
    pub left: i64,
    pub top: i64,
    pub right: i64,
    pub bottom: i64,
}

/// A grab point of a shape: the eight compass handles of a box, or the two
/// ends of a segment.
#[derive(Clone, Copy, Debug, PartialEq, Eq, Structural)]
pub enum HandleId {
    Nw,
    N,
    Ne,
    E,
    Se,
    S,
    Sw,
    W,
    Start,
    End,
}

/// Whether `v` can be stored in a coordinate.
pub open spec fn fits_i32(v: int) -> bool {
    i32::MIN <= v <= i32::MAX
}

/// The size of `v` without its sign.
pub open spec fn magnitude(v: int) -> int {
    if v < 0 {
        -v
    } else {
        v
    }
}

/// `v` raised to at least `lo`, then lowered to at most `hi`. Where `hi < lo`
/// the result is `hi`.
pub open spec fn clamp(v: int, lo: int, hi: int) -> int {
    min(max(v, lo), hi)
}

/// `v` lies between `a` and `b`, whichever of the two is smaller.
pub open spec fn span_holds(a: int, b: int, v: int) -> bool {
    min(a, b) <= v <= max(a, b)
}

/// The point `(px, py)` lies in the box with corner `(x, y)` and signed size
/// `(w, h)`, borders included.
pub open spec fn box_holds(x: int, y: int, w: int, h: int, px: int, py: int) -> bool {
    span_holds(x, x + w, px) && span_holds(y, y + h, py)
}

/// The point `(px, py)` lies in the ellipse inscribed in the box with corner
/// `(x, y)` and signed size `(w, h)`.
///
/// With centre `(x + w/2, y + h/2)` and radii `w/2`, `h/2` the test
/// `(dx/rx)^2 + (dy/ry)^2 <= 1` becomes, multiplied by `w^2 h^2`,
/// `a^2 h^2 + c^2 w^2 <= w^2 h^2` for `a = 2(px - x) - w`, `c = 2(py - y) - h`.
/// A box without width or without height contains no point.
pub open spec fn ellipse_holds(x: int, y: int, w: int, h: int, px: int, py: int) -> bool {
    let a = 2 * (px - x) - w;
    let c = 2 * (py - y) - h;
    w != 0 && h != 0 && (a * a) * (h * h) + (c * c) * (w * w) <= (w * w) * (h * h)
}

/// Squared Euclidean distance between two points.
pub open spec fn distance_squared(a: Point, b: Point) -> int {
    (b.x - a.x) * (b.x - a.x) + (b.y - a.y) * (b.y - a.y)
}

/// The point `p` projects onto the segment from `a` to `b` and lies at most
/// `tol` away from it.
///
/// With `d = b - a`, `v = p - a` and length `L`, the projection `v.d / L` lies
/// in `[0, L]` exactly when `0 <= v.d <= L^2`, and the perpendicular distance
/// `|v x d| / L` is at most `tol` exactly when `(v x d)^2 <= tol^2 L^2`.
/// A segment of length zero is never hit.
pub open spec fn segment_near(a: Point, b: Point, p: Point, tol: int) -> bool {
    let dx = b.x - a.x;
    let dy = b.y - a.y;
    let vx = p.x - a.x;
    let vy = p.y - a.y;
    let len2 = dx * dx + dy * dy;
    let dot = vx * dx + vy * dy;
    let cross = vx * dy - vy * dx;
    len2 > 0 && tol >= 0 && 0 <= dot <= len2 && cross * cross <= (tol * tol) * len2
}

/// `v` lies within `tol / 2` of a position given by its double, `anchor2`.
/// Doubling keeps the midpoint of two coordinates a whole number.
pub open spec fn touches(v: int, anchor2: int, tol: int) -> bool {
    -tol <= 2 * v - anchor2 <= tol
}

/// The point `p` lies in the square of side `tol` centred on `c`.
pub open spec fn endpoint_hit(c: Point, p: Point, tol: int) -> bool {
    touches(p.x as int, 2 * c.x, tol) && touches(p.y as int, 2 * c.y, tol)
}

/// The end of the segment from `a` to `b` whose square holds `p`; the start
/// is tried first.
pub open spec fn endpoint_at(a: Point, b: Point, p: Point, tol: int) -> Option<HandleId> {
    if endpoint_hit(a, p, tol) {
        Some(HandleId::Start)
    } else if endpoint_hit(b, p, tol) {
        Some(HandleId::End)
    } else {
        None
    }
}

impl HandleId {
    /// Position of a compass handle in the order in which handles are tried;
    /// the ends of a segment come after all of them.
    pub open spec fn rank(self) -> int {
        match self {
            HandleId::Nw => 0,
            HandleId::N => 1,
            HandleId::Ne => 2,
            HandleId::E => 3,
            HandleId::Se => 4,
            HandleId::S => 5,
            HandleId::Sw => 6,
            HandleId::W => 7,
            HandleId::Start => 8,
            HandleId::End => 9,
        }
    }

    pub open spec fn is_compass(self) -> bool {
        self.rank() < 8
    }
}

impl Rect {
    /// The sides of the box, whatever the signs of its width and height.
    pub open spec fn sides(self) -> Edges {
        Edges {
            left: min(self.x as int, self.x + self.width) as i64,
            top: min(self.y as int, self.y + self.height) as i64,
            right: max(self.x as int, self.x + self.width) as i64,
            bottom: max(self.y as int, self.y + self.height) as i64,
        }
    }

    pub open spec fn contains(self, p: Point) -> bool {
        box_holds(
            self.x as int,
            self.y as int,
            self.width as int,
            self.height as int,
            p.x as int,
            p.y as int,
        )
    }

    pub open spec fn ellipse_contains(self, p: Point) -> bool {
        ellipse_holds(
            self.x as int,
            self.y as int,
            self.width as int,
            self.height as int,
            p.x as int,
            p.y as int,
        )
    }

    pub fn edges(self) -> (e: Edges)
        ensures
            e == self.sides(),
    {
        let x: i64 = self.x as i64;
        let y: i64 = self.y as i64;
        let far_x: i64 = x + self.width as i64;
        let far_y: i64 = y + self.height as i64;
        Edges {
            left: if x <= far_x { x } else { far_x },
            top: if y <= far_y { y } else { far_y },
            right: if x <= far_x { far_x } else { x },
            bottom: if y <= far_y { far_y } else { y },
        }
    }
}

impl Edges {
    /// The sides of the box spanned by two opposite corners.
    pub open spec fn spanning(a: Point, b: Point) -> Edges {
        Edges {
            left: min(a.x as int, b.x as int) as i64,
            top: min(a.y as int, b.y as int) as i64,
            right: max(a.x as int, b.x as int) as i64,
            bottom: max(a.y as int, b.y as int) as i64,
        }
    }

    pub fn from_corners(a: Point, b: Point) -> (e: Edges)
        ensures
            e == Edges::spanning(a, b),
    {
        Edges {
            left: if a.x <= b.x { a.x as i64 } else { b.x as i64 },
            top: if a.y <= b.y { a.y as i64 } else { b.y as i64 },
            right: if a.x <= b.x { b.x as i64 } else { a.x as i64 },
            bottom: if a.y <= b.y { b.y as i64 } else { a.y as i64 },
        }
    }

    pub open spec fn holds(self, p: Point) -> bool {
        self.left <= p.x <= self.right && self.top <= p.y <= self.bottom
    }

    pub fn contains(self, p: Point) -> (hit: bool)
        ensures
            hit == self.holds(p),
    {
        self.left <= p.x as i64 && p.x as i64 <= self.right && self.top <= p.y as i64 && p.y as i64
            <= self.bottom
    }

    /// Twice the horizontal position of a compass handle.
    pub open spec fn handle_x2(self, h: HandleId) -> int {
        match h {
            HandleId::Nw | HandleId::W | HandleId::Sw => 2 * self.left,
            HandleId::N | HandleId::S => self.left + self.right,
            _ => 2 * self.right,
        }
    }

    /// Twice the vertical position of a compass handle.
    pub open spec fn handle_y2(self, h: HandleId) -> int {
        match h {
            HandleId::Nw | HandleId::N | HandleId::Ne => 2 * self.top,
            HandleId::E | HandleId::W => self.top + self.bottom,
            _ => 2 * self.bottom,
        }
    }

    /// The point `p` lies in the square of side `tol` centred on the compass
    /// handle `h`. No point hits a handle that is not a compass handle.
    pub open spec fn handle_hit(self, h: HandleId, p: Point, tol: int) -> bool {
        h.is_compass() && touches(p.x as int, self.handle_x2(h), tol) && touches(
            p.y as int,
            self.handle_y2(h),
            tol,
        )
    }

    /// The first compass handle, in the order nw, n, ne, e, se, s, sw, w,
    /// whose square holds `p`.
    pub open spec fn handle_at(self, p: Point, tol: int) -> Option<HandleId> {
        if self.handle_hit(HandleId::Nw, p, tol) {
            Some(HandleId::Nw)
        } else if self.handle_hit(HandleId::N, p, tol) {
            Some(HandleId::N)
        } else if self.handle_hit(HandleId::Ne, p, tol) {
            Some(HandleId::Ne)
        } else if self.handle_hit(HandleId::E, p, tol) {
            Some(HandleId::E)
        } else if self.handle_hit(HandleId::Se, p, tol) {
            Some(HandleId::Se)
        } else if self.handle_hit(HandleId::S, p, tol) {
            Some(HandleId::S)
        } else if self.handle_hit(HandleId::Sw, p, tol) {
            Some(HandleId::Sw)
        } else if self.handle_hit(HandleId::W, p, tol) {
            Some(HandleId::W)
        } else {
            None
        }
    }
}

/// Whether `v` lies within `tol / 2` of the position whose double is `anchor2`.
fn within_half(v: i32, anchor2: i128, tol: i64) -> (hit: bool)
    requires
        -0x2_0000_0000_0000_0000 <= anchor2 <= 0x2_0000_0000_0000_0000,
    ensures
        hit == touches(v as int, anchor2 as int, tol as int),
{
    let d: i128 = 2 * (v as i128) - anchor2;
    -(tol as i128) <= d && d <= tol as i128
}

/// Whether `p` lies in the box `b`, borders included. The box may have a
/// negative width or height.
pub fn point_in_rect(b: Rect, p: Point) -> (hit: bool)
    ensures
        hit == b.contains(p),
{
    b.edges().contains(p)
}

proof fn lemma_square_bound(v: int, m: int)
    by (nonlinear_arith)
    requires
        -m <= v <= m,
    ensures
        0 <= v * v <= m * m,
{
}

proof fn lemma_product_bound(a: int, b: int, ma: int, mb: int)
    by (nonlinear_arith)
    requires
        0 <= a <= ma,
        0 <= b <= mb,
    ensures
        0 <= a * b <= ma * mb,
{
}

proof fn lemma_signed_product_bound(a: int, b: int, m: int)
    by (nonlinear_arith)
    requires
        -m <= a <= m,
        -m <= b <= m,
    ensures
        -(m * m) <= a * b <= m * m,
{
}

/// Whether `p` lies in the ellipse inscribed in the box `b`.
pub fn point_in_ellipse(b: Rect, p: Point) -> (hit: bool)
    ensures
        hit == b.ellipse_contains(p),
{
    let w: i128 = b.width as i128;
    let h: i128 = b.height as i128;
    if w == 0 || h == 0 {
        return false;
    }
    let a: i128 = 2 * (p.x as i128 - b.x as i128) - w;
    let c: i128 = 2 * (p.y as i128 - b.y as i128) - h;
    proof {
        lemma_square_bound(w as int, 0x8000_0000);
        lemma_square_bound(h as int, 0x8000_0000);
        lemma_square_bound(a as int, 0x4_0000_0000);
        lemma_square_bound(c as int, 0x4_0000_0000);
    }
    let w2: i128 = w * w;
    let h2: i128 = h * h;
    let a2: i128 = a * a;
    let c2: i128 = c * c;
    if a2 > w2 || c2 > h2 {
        proof {
            assert(a2 * h2 + c2 * w2 > w2 * h2) by (nonlinear_arith)
                requires
                    a2 > w2 || c2 > h2,
                    a2 >= 0,
                    c2 >= 0,
                    w2 == w * w,
                    h2 == h * h,
                    w != 0,
                    h != 0,
            ;
        }
        return false;
    }
    proof {
        lemma_product_bound(a2 as int, h2 as int, 0x4000_0000_0000_0000, 0x4000_0000_0000_0000);
        lemma_product_bound(c2 as int, w2 as int, 0x4000_0000_0000_0000, 0x4000_0000_0000_0000);
        lemma_product_bound(w2 as int, h2 as int, 0x4000_0000_0000_0000, 0x4000_0000_0000_0000);
    }
    a2 * h2 + c2 * w2 <= w2 * h2
}

/// Squared distance between two points.
pub fn squared_distance(a: Point, b: Point) -> (d: i128)
    ensures
        d == distance_squared(a, b),
        0 <= d <= 0x2_0000_0000_0000_0000,
{
    let dx: i128 = b.x as i128 - a.x as i128;
    let dy: i128 = b.y as i128 - a.y as i128;
    proof {
        lemma_square_bound(dx as int, 0x1_0000_0000);
        lemma_square_bound(dy as int, 0x1_0000_0000);
    }
    dx * dx + dy * dy
}

/// Whether `p` projects onto the segment from `a` to `b` and lies at most
/// `tolerance` away from it.
pub fn point_near_segment(a: Point, b: Point, p: Point, tolerance: i32) -> (hit: bool)
    ensures
        hit == segment_near(a, b, p, tolerance as int),
{
    if tolerance < 0 {
        return false;
    }
    let dx: i128 = b.x as i128 - a.x as i128;
    let dy: i128 = b.y as i128 - a.y as i128;
    let vx: i128 = p.x as i128 - a.x as i128;
    let vy: i128 = p.y as i128 - a.y as i128;
    proof {
        lemma_square_bound(dx as int, 0x1_0000_0000);
        lemma_square_bound(dy as int, 0x1_0000_0000);
        lemma_signed_product_bound(vx as int, dx as int, 0x1_0000_0000);
        lemma_signed_product_bound(vy as int, dy as int, 0x1_0000_0000);
        lemma_signed_product_bound(vx as int, dy as int, 0x1_0000_0000);
        lemma_signed_product_bound(vy as int, dx as int, 0x1_0000_0000);
    }
    let len2: i128 = dx * dx + dy * dy;
    if len2 == 0 {
        return false;
    }
    let dot: i128 = vx * dx + vy * dy;
    if dot < 0 || dot > len2 {
        return false;
    }
    let cross: i128 = vx * dy - vy * dx;
    let t: i128 = tolerance as i128;
    proof {
        lemma_square_bound(t as int, 0x7fff_ffff);
        lemma_product_bound(
            (t * t) as int,
            len2 as int,
            0x3fff_ffff_0000_0001,
            0x2_0000_0000_0000_0000,
        );
    }
    let limit: u128 = ((t * t) * len2) as u128;
    let reach: u128 = if cross < 0 { (-cross) as u128 } else { cross as u128 };
    proof {
        assert(reach * reach == cross * cross) by (nonlinear_arith)
            requires
                reach == cross || reach == -cross,
        ;
    }
    if reach >= 0x1_0000_0000_0000_0000 {
        proof {
            assert(reach * reach >= 0x1_0000_0000_0000_0000 * 0x1_0000_0000_0000_0000)
                by (nonlinear_arith)
                requires
                    reach >= 0x1_0000_0000_0000_0000,
            ;
        }
        return false;
    }
    proof {
        lemma_product_bound(
            reach as int,
            reach as int,
            0xffff_ffff_ffff_ffff,
            0xffff_ffff_ffff_ffff,
        );
    }
    reach * reach <= limit
}

/// The compass handle of the box `b` at `p`, if any: each handle is a square
/// of side `tolerance` centred on a corner or on the middle of a side, and
/// where several hold `p` the first in the order nw, n, ne, e, se, s, sw, w
/// is returned.
pub fn handle_at_point(b: Edges, p: Point, tolerance: i64) -> (h: Option<HandleId>)
    ensures
        h == b.handle_at(p, tolerance as int),
{
    let l2: i128 = 2 * (b.left as i128);
    let r2: i128 = 2 * (b.right as i128);
    let t2: i128 = 2 * (b.top as i128);
    let b2: i128 = 2 * (b.bottom as i128);
    let cx2: i128 = b.left as i128 + b.right as i128;
    let cy2: i128 = b.top as i128 + b.bottom as i128;
    let at_left: bool = within_half(p.x, l2, tolerance);
    let at_centre: bool = within_half(p.x, cx2, tolerance);
    let at_right: bool = within_half(p.x, r2, tolerance);
    let at_top: bool = within_half(p.y, t2, tolerance);
    let at_middle: bool = within_half(p.y, cy2, tolerance);
    let at_bottom: bool = within_half(p.y, b2, tolerance);
    if at_left && at_top {
        Some(HandleId::Nw)
    } else if at_centre && at_top {
        Some(HandleId::N)
    } else if at_right && at_top {
        Some(HandleId::Ne)
    } else if at_right && at_middle {
        Some(HandleId::E)
    } else if at_right && at_bottom {
        Some(HandleId::Se)
    } else if at_centre && at_bottom {
        Some(HandleId::S)
    } else if at_left && at_bottom {
        Some(HandleId::Sw)
    } else if at_left && at_middle {
        Some(HandleId::W)
    } else {
        None
    }
}

/// The end of the segment from `a` to `b` at `p`, if any: each end is a
/// square of side `tolerance`, and the start is tried first.
pub fn endpoint_at_point(a: Point, b: Point, p: Point, tolerance: i64) -> (h: Option<HandleId>)
    ensures
        h == endpoint_at(a, b, p, tolerance as int),
{
    if within_half(p.x, 2 * (a.x as i128), tolerance) && within_half(
        p.y,
        2 * (a.y as i128),
        tolerance,
    ) {
        Some(HandleId::Start)
    } else if within_half(p.x, 2 * (b.x as i128), tolerance) && within_half(
        p.y,
        2 * (b.y as i128),
        tolerance,
    ) {
        Some(HandleId::End)
    } else {
        None
    }
}

/// A box holds the same points when it is described from the opposite
/// corner with the opposite size.
pub proof fn lemma_box_flip(x: int, y: int, w: int, h: int, px: int, py: int)
    ensures
        box_holds(x, y, w, h, px, py) == box_holds(x + w, y + h, -w, -h, px, py),
{
}

/// Flipping one axis alone does not change the points of a box either.
pub proof fn lemma_box_flip_axis(x: int, y: int, w: int, h: int, px: int, py: int)
    ensures
        box_holds(x, y, w, h, px, py) == box_holds(x + w, y, -w, h, px, py),
        box_holds(x, y, w, h, px, py) == box_holds(x, y + h, w, -h, px, py),
{
}

/// The handle found at a point is hit by it, and no handle that is tried
/// earlier is.
pub proof fn lemma_handle_at_is_first(e: Edges, p: Point, tol: int, h: HandleId)
    ensures
        e.handle_at(p, tol) == Some(h) <==> (e.handle_hit(h, p, tol) && forall|g: HandleId|
            g.rank() < h.rank() ==> !e.handle_hit(g, p, tol)),
        e.handle_at(p, tol) is None <==> forall|g: HandleId| !e.handle_hit(g, p, tol),
{
    assert(e.handle_at(p, tol) == Some(h) ==> forall|g: HandleId|
        g.rank() < h.rank() ==> !e.handle_hit(g, p, tol)) by {
        if e.handle_at(p, tol) == Some(h) {
            assert forall|g: HandleId| g.rank() < h.rank() implies !e.handle_hit(g, p, tol) by {
                lemma_rank_names(g);
            }
        }
    }
    if e.handle_hit(h, p, tol) && forall|g: HandleId|
        g.rank() < h.rank() ==> !e.handle_hit(g, p, tol) {
        lemma_rank_names(h);
        assert(HandleId::Nw.rank() == 0 && HandleId::N.rank() == 1 && HandleId::Ne.rank() == 2
            && HandleId::E.rank() == 3 && HandleId::Se.rank() == 4 && HandleId::S.rank() == 5
            && HandleId::Sw.rank() == 6 && HandleId::W.rank() == 7);
    }
    if e.handle_at(p, tol) is None {
        assert forall|g: HandleId| !e.handle_hit(g, p, tol) by {
            lemma_rank_names(g);
        }
    }
}

/// A point that two handles hold goes to the one that is tried first.
pub proof fn lemma_handle_tie(e: Edges, p: Point, tol: int, first: HandleId, second: HandleId)
    requires
        e.handle_hit(first, p, tol),
        e.handle_hit(second, p, tol),
        first.rank() < second.rank(),
    ensures
        e.handle_at(p, tol) is Some,
        e.handle_at(p, tol) != Some(second),
        e.handle_at(p, tol).unwrap().rank() <= first.rank(),
{
    let found = e.handle_at(p, tol);
    lemma_rank_names(first);
    lemma_rank_names(second);
    assert(found is Some);
    lemma_handle_at_is_first(e, p, tol, found.unwrap());
}

proof fn lemma_rank_names(h: HandleId)
    ensures
        h.rank() == 0 <==> h == HandleId::Nw,
        h.rank() == 1 <==> h == HandleId::N,
        h.rank() == 2 <==> h == HandleId::Ne,
        h.rank() == 3 <==> h == HandleId::E,
        h.rank() == 4 <==> h == HandleId::Se,
        h.rank() == 5 <==> h == HandleId::S,
        h.rank() == 6 <==> h == HandleId::Sw,
        h.rank() == 7 <==> h == HandleId::W,
        0 <= h.rank() <= 9,
{
}

} // verus!
