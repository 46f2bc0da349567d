//! Freehand strokes: a list of sampled points with its bounding box and a
//! path command string, both worked out only when they are asked for.

use vstd::prelude::*;
use vstd::math::{max, min};
use vstd::string::StringExecFns;
use crate::geometry::{distance_squared, squared_distance, Point, UNIT};

verus! {

/// Margin, on the left and on top, between a stroke's bounding box and the
/// origin of the local coordinates in which its path command is written.
pub const PATH_MARGIN: i32 = 10 * UNIT;

/// Two samples closer than this are taken for one.
pub const MIN_SAMPLE_DISTANCE: i32 = 2 * UNIT;

/// The bounding box of a stroke.
#[derive(Clone, Copy, Debug, PartialEq, Eq, Structural)]
pub struct PathBounds {
    pub min_x: i32,
    pub max_x: i32,
    pub min_y: i32,
    pub max_y: i32,
}

/// What a stroke is: its points in the order in which they were sampled, its
/// colour and its line width. The bounding box and the path command follow
/// from the points.
pub struct PenPathView {
    pub points: Seq<Point>,
    pub color: Seq<char>,
    pub width: i32,
}

/// A freehand stroke.
///
/// The bounding box and the path command are kept beside the points. Adding a
/// point only marks them as out of date; they are worked out again, in one pass
/// over the points, the next time either is read.
#[derive(Debug)]
pub struct PenPath {
    points: Vec<Point>,
    color: String,
    width: i32,
    bounds: PathBounds,
    commands: String,
    cached: bool,
}

/// The horizontal or the vertical coordinate of a point.
pub open spec fn coordinate(p: Point, vertical: bool) -> int {
    if vertical {
        p.y as int
    } else {
        p.x as int
    }
}

/// The least coordinate among the first `n` points.
pub open spec fn least(points: Seq<Point>, n: nat, vertical: bool) -> int
    decreases n,
{
    if n <= 1 {
        coordinate(points[0], vertical)
    } else {
        min(least(points, (n - 1) as nat, vertical), coordinate(points[n - 1], vertical))
    }
}

/// The greatest coordinate among the first `n` points.
pub open spec fn greatest(points: Seq<Point>, n: nat, vertical: bool) -> int
    decreases n,
{
    if n <= 1 {
        coordinate(points[0], vertical)
    } else {
        max(greatest(points, (n - 1) as nat, vertical), coordinate(points[n - 1], vertical))
    }
}

/// The bounding box of the points; all zero where there are none.
pub open spec fn bounds_of(points: Seq<Point>) -> PathBounds {
    if points.len() == 0 {
        PathBounds { min_x: 0, max_x: 0, min_y: 0, max_y: 0 }
    } else {
        PathBounds {
            min_x: least(points, points.len(), false) as i32,
            max_x: greatest(points, points.len(), false) as i32,
            min_y: least(points, points.len(), true) as i32,
            max_y: greatest(points, points.len(), true) as i32,
        }
    }
}

/// The text of one decimal digit.
pub open spec fn digit_text(d: int) -> Seq<char> {
    if d == 0 {
        "0"@
    } else if d == 1 {
        "1"@
    } else if d == 2 {
        "2"@
    } else if d == 3 {
        "3"@
    } else if d == 4 {
        "4"@
    } else if d == 5 {
        "5"@
    } else if d == 6 {
        "6"@
    } else if d == 7 {
        "7"@
    } else if d == 8 {
        "8"@
    } else {
        "9"@
    }
}

/// The decimal digits of `n`, without leading zeros.
pub open spec fn decimal(n: nat) -> Seq<char>
    decreases n,
{
    if n < 10 {
        digit_text(n as int)
    } else {
        decimal(n / 10) + digit_text((n % 10) as int)
    }
}

/// The text of a fixed-point number: its whole units, and after a point up to
/// three decimal places, as many as it takes to end on a digit that is not
/// zero. A whole number has no point.
pub open spec fn fixed_point(v: nat) -> Seq<char> {
    let whole = v / 1000;
    let tenths = (v / 100) % 10;
    let hundredths = (v / 10) % 10;
    let thousandths = v % 10;
    if thousandths != 0 {
        decimal(whole) + "."@ + digit_text(tenths as int) + digit_text(hundredths as int)
            + digit_text(thousandths as int)
    } else if hundredths != 0 {
        decimal(whole) + "."@ + digit_text(tenths as int) + digit_text(hundredths as int)
    } else if tenths != 0 {
        decimal(whole) + "."@ + digit_text(tenths as int)
    } else {
        decimal(whole)
    }
}

/// A coordinate as the path command writes it: counted from the least
/// coordinate of the stroke, with the margin added.
pub open spec fn local(v: int, least: int) -> nat {
    (v - least + PATH_MARGIN) as nat
}

/// The two local coordinates of a point, separated by a blank.
pub open spec fn point_text(p: Point, min_x: int, min_y: int) -> Seq<char> {
    fixed_point(local(p.x as int, min_x)) + " "@ + fixed_point(local(p.y as int, min_y))
}

/// The path command for the first `n` points: a move to the first point and a
/// line to each one after it.
pub open spec fn command_upto(points: Seq<Point>, n: nat, min_x: int, min_y: int) -> Seq<char>
    decreases n,
{
    if n == 0 {
        Seq::<char>::empty()
    } else if n == 1 {
        "M "@ + point_text(points[0], min_x, min_y)
    } else {
        command_upto(points, (n - 1) as nat, min_x, min_y) + " L "@ + point_text(
            points[n - 1],
            min_x,
            min_y,
        )
    }
}

/// The path command of a stroke, in local coordinates: the leftmost point has
/// the horizontal coordinate `PATH_MARGIN`, the topmost the vertical one. It
/// is empty where there are no points.
pub open spec fn command_of(points: Seq<Point>) -> Seq<char> {
    command_upto(
        points,
        points.len(),
        bounds_of(points).min_x as int,
        bounds_of(points).min_y as int,
    )
}

/// The points after a sample at `p`: `p` is added, unless it lies closer than
/// `MIN_SAMPLE_DISTANCE` to the last point.
pub open spec fn extended(points: Seq<Point>, p: Point) -> Seq<Point> {
    if points.len() > 0 && distance_squared(points.last(), p) < MIN_SAMPLE_DISTANCE
        * MIN_SAMPLE_DISTANCE {
        points
    } else {
        points.push(p)
    }
}

fn digit_str(d: u64) -> (s: &'static str)
    requires
        d < 10,
    ensures
        s@ == digit_text(d as int),
{
    if d == 0 {
        "0"
    } else if d == 1 {
        "1"
    } else if d == 2 {
        "2"
    } else if d == 3 {
        "3"
    } else if d == 4 {
        "4"
    } else if d == 5 {
        "5"
    } else if d == 6 {
        "6"
    } else if d == 7 {
        "7"
    } else if d == 8 {
        "8"
    } else {
        "9"
    }
}

fn append_decimal(out: &mut String, n: u64)
    ensures
        final(out)@ == old(out)@ + decimal(n as nat),
    decreases n,
{
    if n >= 10 {
        append_decimal(out, n / 10);
    }
    out.append(digit_str(n % 10));
    assert(out@ =~= old(out)@ + decimal(n as nat));
}

fn append_fixed_point(out: &mut String, v: u64)
    ensures
        final(out)@ == old(out)@ + fixed_point(v as nat),
{
    let tenths: u64 = (v / 100) % 10;
    let hundredths: u64 = (v / 10) % 10;
    let thousandths: u64 = v % 10;
    append_decimal(out, v / 1000);
    if thousandths != 0 {
        out.append(".");
        out.append(digit_str(tenths));
        out.append(digit_str(hundredths));
        out.append(digit_str(thousandths));
    } else if hundredths != 0 {
        out.append(".");
        out.append(digit_str(tenths));
        out.append(digit_str(hundredths));
    } else if tenths != 0 {
        out.append(".");
        out.append(digit_str(tenths));
    }
    assert(out@ =~= old(out)@ + fixed_point(v as nat));
}

/// The bounding box of the points, found in one pass.
pub fn compute_bounds(points: &Vec<Point>) -> (b: PathBounds)
    ensures
        b == bounds_of(points@),
{
    if points.len() == 0 {
        return PathBounds { min_x: 0, max_x: 0, min_y: 0, max_y: 0 };
    }
    let mut b: PathBounds = PathBounds {
        min_x: points[0].x,
        max_x: points[0].x,
        min_y: points[0].y,
        max_y: points[0].y,
    };
    let mut i: usize = 1;
    while i < points.len()
        invariant
            1 <= i <= points.len(),
            b.min_x == least(points@, i as nat, false),
            b.max_x == greatest(points@, i as nat, false),
            b.min_y == least(points@, i as nat, true),
            b.max_y == greatest(points@, i as nat, true),
        decreases points.len() - i,
    {
        let p: Point = points[i];
        if p.x < b.min_x {
            b.min_x = p.x;
        }
        if p.x > b.max_x {
            b.max_x = p.x;
        }
        if p.y < b.min_y {
            b.min_y = p.y;
        }
        if p.y > b.max_y {
            b.max_y = p.y;
        }
        i = i + 1;
    }
    b
}

/// The path command of the points, found in one pass.
pub fn compute_commands(points: &Vec<Point>) -> (c: String)
    ensures
        c@ == command_of(points@),
{
    let b: PathBounds = compute_bounds(points);
    let mut out: String = String::new();
    let mut i: usize = 0;
    proof {
        lemma_bounds_hold(points@);
    }
    while i < points.len()
        invariant
            0 <= i <= points.len(),
            b == bounds_of(points@),
            forall|k: int|
                0 <= k < points.len() ==> b.min_x <= (#[trigger] points@[k]).x && b.min_y
                    <= points@[k].y,
            out@ == command_upto(points@, i as nat, b.min_x as int, b.min_y as int),
        decreases points.len() - i,
    {
        let p: Point = points[i];
        let ghost before = out@;
        if i == 0 {
            out.append("M ");
        } else {
            out.append(" L ");
        }
        append_fixed_point(&mut out, (p.x as i64 - b.min_x as i64 + PATH_MARGIN as i64) as u64);
        out.append(" ");
        append_fixed_point(&mut out, (p.y as i64 - b.min_y as i64 + PATH_MARGIN as i64) as u64);
        assert(out@ =~= command_upto(points@, (i + 1) as nat, b.min_x as int, b.min_y as int));
        i = i + 1;
    }
    out
}

impl View for PenPath {
    type V = PenPathView;

    closed spec fn view(&self) -> PenPathView {
        PenPathView { points: self.points@, color: self.color@, width: self.width }
    }
}

impl PenPath {
    #[verifier::type_invariant]
    spec fn cache_holds(self) -> bool {
        self.cached ==> self.bounds == bounds_of(self.points@) && self.commands@ == command_of(
            self.points@,
        )
    }

    /// A stroke through the given points. Its bounding box and path command
    /// are worked out at once.
    pub fn new(points: Vec<Point>, color: String, width: i32) -> (path: PenPath)
        ensures
            path@ == (PenPathView { points: points@, color: color@, width }),
    {
        let bounds: PathBounds = compute_bounds(&points);
        let commands: String = compute_commands(&points);
        PenPath { points, color, width, bounds, commands, cached: true }
    }

    /// Adds a point at the end, whatever its distance from the last one.
    pub fn add_point(&mut self, p: Point)
        ensures
            final(self)@ == (PenPathView { points: old(self)@.points.push(p), ..old(self)@ }),
    {
        self.cached = false;
        let mut points: Vec<Point> = Vec::new();
        core::mem::swap(&mut points, &mut self.points);
        points.push(p);
        core::mem::swap(&mut points, &mut self.points);
    }

    /// Brings the bounding box and the path command up to date. Nothing is
    /// done where they are.
    pub fn recalculate_bounds_and_commands(&mut self)
        ensures
            final(self)@ == old(self)@,
            final(self).is_current(),
    {
        if self.cached {
            return ;
        }
        let bounds: PathBounds = compute_bounds(&self.points);
        let commands: String = compute_commands(&self.points);
        self.bounds = bounds;
        self.commands = commands;
        self.cached = true;
    }

    /// Whether the bounding box and the path command are up to date.
    pub closed spec fn is_current(self) -> bool {
        self.cached
    }

    /// The path command of the stroke.
    pub fn get_commands(&mut self) -> (c: String)
        ensures
            final(self)@ == old(self)@,
            final(self).is_current(),
            c@ == command_of(old(self)@.points),
    {
        self.recalculate_bounds_and_commands();
        proof {
            use_type_invariant(&*self);
        }
        self.commands.clone()
    }

    /// The bounding box of the stroke.
    pub fn get_bounds(&mut self) -> (b: PathBounds)
        ensures
            final(self)@ == old(self)@,
            final(self).is_current(),
            b == bounds_of(old(self)@.points),
    {
        self.recalculate_bounds_and_commands();
        proof {
            use_type_invariant(&*self);
        }
        self.bounds
    }

    /// Starts the stroke anew at `p`.
    pub fn begin(&mut self, p: Point)
        ensures
            final(self)@ == (PenPathView { points: seq![p], ..old(self)@ }),
    {
        self.cached = false;
        let mut points: Vec<Point> = Vec::new();
        core::mem::swap(&mut points, &mut self.points);
        points.clear();
        points.push(p);
        assert(points@ =~= seq![p]);
        core::mem::swap(&mut points, &mut self.points);
    }

    /// Takes a sample at `p`: the point is added unless it lies closer than
    /// `MIN_SAMPLE_DISTANCE` to the last one.
    pub fn extend(&mut self, p: Point)
        ensures
            final(self)@ == (PenPathView { points: extended(old(self)@.points, p), ..old(self)@ }),
    {
        let n: usize = self.points.len();
        if n > 0 {
            let step: i128 = MIN_SAMPLE_DISTANCE as i128;
            if squared_distance(self.points[n - 1], p) < step * step {
                return ;
            }
        }
        self.add_point(p);
    }

    /// Drops all points.
    pub fn clear(&mut self)
        ensures
            final(self)@ == (PenPathView { points: Seq::<Point>::empty(), ..old(self)@ }),
    {
        self.cached = false;
        let mut points: Vec<Point> = Vec::new();
        core::mem::swap(&mut points, &mut self.points);
        points.clear();
        core::mem::swap(&mut points, &mut self.points);
    }

    /// Number of points.
    pub fn len(&self) -> (n: usize)
        ensures
            n == self@.points.len(),
    {
        self.points.len()
    }

    /// The `i`-th point.
    pub fn point(&self, i: usize) -> (p: Point)
        requires
            i < self@.points.len(),
        ensures
            p == self@.points[i as int],
    {
        self.points[i]
    }

    /// The points, in the order in which they were sampled.
    pub fn points(&self) -> (v: &Vec<Point>)
        ensures
            v@ == self@.points,
    {
        &self.points
    }

    /// The colour, as it was given.
    pub fn color(&self) -> (c: &String)
        ensures
            c@ == self@.color,
    {
        &self.color
    }

    /// The line width.
    pub fn width(&self) -> (w: i32)
        ensures
            w == self@.width,
    {
        self.width
    }

    /// Hands out the stroke and leaves an empty one of the same colour and
    /// width behind.
    pub fn take(&mut self) -> (path: PenPath)
        ensures
            path@ == old(self)@,
            final(self)@ == (PenPathView { points: Seq::<Point>::empty(), ..old(self)@ }),
    {
        let mut points: Vec<Point> = Vec::new();
        self.cached = false;
        core::mem::swap(&mut points, &mut self.points);
        PenPath::new(points, self.color.clone(), self.width)
    }
}

/// The bounding box is attained: some point lies on each of its four sides.
pub proof fn lemma_bounds_attained(points: Seq<Point>)
    requires
        points.len() > 0,
    ensures
        exists|k: int| 0 <= k < points.len() && points[k].x == bounds_of(points).min_x,
        exists|k: int| 0 <= k < points.len() && points[k].x == bounds_of(points).max_x,
        exists|k: int| 0 <= k < points.len() && points[k].y == bounds_of(points).min_y,
        exists|k: int| 0 <= k < points.len() && points[k].y == bounds_of(points).max_y,
{
    lemma_extremes(points, points.len(), false);
    lemma_extremes(points, points.len(), true);
}

/// Every point lies in the bounding box.
pub proof fn lemma_bounds_hold(points: Seq<Point>)
    ensures
        forall|k: int|
            0 <= k < points.len() ==> {
                let p = #[trigger] points[k];
                let b = bounds_of(points);
                b.min_x <= p.x <= b.max_x && b.min_y <= p.y <= b.max_y
            },
{
    if points.len() > 0 {
        lemma_extremes(points, points.len(), false);
        lemma_extremes(points, points.len(), true);
    }
}

proof fn lemma_extremes(points: Seq<Point>, n: nat, vertical: bool)
    requires
        1 <= n <= points.len(),
    ensures
        forall|k: int|
            0 <= k < n ==> least(points, n, vertical) <= coordinate(#[trigger] points[k], vertical)
                <= greatest(points, n, vertical),
        exists|k: int| 0 <= k < n && coordinate(points[k], vertical) == least(points, n, vertical),
        exists|k: int|
            0 <= k < n && coordinate(points[k], vertical) == greatest(points, n, vertical),
    decreases n,
{
    if n > 1 {
        lemma_extremes(points, (n - 1) as nat, vertical);
        let lo = choose|k: int|
            0 <= k < n - 1 && coordinate(points[k], vertical) == least(
                points,
                (n - 1) as nat,
                vertical,
            );
        let hi = choose|k: int|
            0 <= k < n - 1 && coordinate(points[k], vertical) == greatest(
                points,
                (n - 1) as nat,
                vertical,
            );
        let last = n - 1;
        assert(coordinate(points[lo], vertical) == least(points, n, vertical) || coordinate(
            points[last],
            vertical,
        ) == least(points, n, vertical));
        assert(coordinate(points[hi], vertical) == greatest(points, n, vertical) || coordinate(
            points[last],
            vertical,
        ) == greatest(points, n, vertical));
    } else {
        assert(coordinate(points[0], vertical) == least(points, n, vertical));
        assert(coordinate(points[0], vertical) == greatest(points, n, vertical));
    }
}

/// Two samples in a row that lie closer together than `MIN_SAMPLE_DISTANCE`
/// add at most one point to a stroke; where the first of them is added, the
/// second is not.
pub proof fn lemma_close_samples_add_one(points: Seq<Point>, q: Point, p: Point)
    requires
        distance_squared(q, p) < MIN_SAMPLE_DISTANCE * MIN_SAMPLE_DISTANCE,
    ensures
        extended(extended(points, q), p).len() <= points.len() + 1,
        extended(points, q) == points.push(q) ==> extended(extended(points, q), p) == points.push(
            q,
        ),
        extended(seq![q], p) == seq![q],
{
    assert(points.push(q).last() == q);
    assert(seq![q].last() == q);
}

/// A sample that is far enough from the last point is added at the end, and
/// the points before it stay.
pub proof fn lemma_far_sample_is_added(points: Seq<Point>, p: Point)
    requires
        points.len() > 0,
        distance_squared(points.last(), p) >= MIN_SAMPLE_DISTANCE * MIN_SAMPLE_DISTANCE,
    ensures
        extended(points, p) == points.push(p),
{
}

proof fn lemma_command_keeps_start(points: Seq<Point>, n: nat, min_x: int, min_y: int)
    requires
        1 <= n <= points.len(),
    ensures
        command_upto(points, n, min_x, min_y).len() >= command_upto(points, 1, min_x, min_y).len(),
        command_upto(points, n, min_x, min_y).subrange(
            0,
            command_upto(points, 1, min_x, min_y).len() as int,
        ) == command_upto(points, 1, min_x, min_y),
    decreases n,
{
    let first = command_upto(points, 1, min_x, min_y);
    if n > 1 {
        lemma_command_keeps_start(points, (n - 1) as nat, min_x, min_y);
        let before = command_upto(points, (n - 1) as nat, min_x, min_y);
        let whole = command_upto(points, n, min_x, min_y);
        assert(whole == before + " L "@ + point_text(points[n - 1], min_x, min_y));
        assert(whole.subrange(0, first.len() as int) =~= before.subrange(0, first.len() as int));
    } else {
        assert(first.subrange(0, first.len() as int) =~= first);
    }
}

/// The path command of a stroke begins with a move to its first point, in
/// local coordinates.
pub proof fn lemma_command_starts_with_move(points: Seq<Point>)
    requires
        points.len() > 0,
    ensures
        ({
            let b = bounds_of(points);
            let start = "M "@ + point_text(points[0], b.min_x as int, b.min_y as int);
            &&& command_of(points).len() >= start.len()
            &&& command_of(points).subrange(0, start.len() as int) == start
        }),
{
    let b = bounds_of(points);
    lemma_command_keeps_start(points, points.len(), b.min_x as int, b.min_y as int);
}

/// Where the first point of a stroke is its leftmost and its topmost point,
/// the path command begins with `M 10 10`: both local coordinates of that
/// point are the margin.
pub proof fn lemma_command_starts_at_margin(points: Seq<Point>)
    requires
        points.len() > 0,
        points[0].x == bounds_of(points).min_x,
        points[0].y == bounds_of(points).min_y,
    ensures
        command_of(points).len() >= 7,
        command_of(points).subrange(0, 7) == "M 10 10"@,
{
    lemma_command_starts_with_move(points);
    let b = bounds_of(points);
    let start = "M "@ + point_text(points[0], b.min_x as int, b.min_y as int);
    reveal_strlit("M ");
    reveal_strlit(" ");
    reveal_strlit("0");
    reveal_strlit("1");
    reveal_strlit("M 10 10");
    assert(local(points[0].x as int, b.min_x as int) == 10000);
    assert(local(points[0].y as int, b.min_y as int) == 10000);
    assert(decimal(10) == decimal(1) + digit_text(0)) by {
        reveal_with_fuel(decimal, 2);
    }
    assert(decimal(1) == digit_text(1)) by {
        reveal_with_fuel(decimal, 1);
    }
    assert(fixed_point(10000) =~= "1"@ + "0"@);
    assert(start =~= "M 10 10"@);
    assert(start.len() == 7);
}

/// In local coordinates no point of a stroke lies left of or above the
/// margin, and some point lies on it on each axis.
pub proof fn lemma_local_coordinates_from_margin(points: Seq<Point>)
    requires
        points.len() > 0,
    ensures
        forall|k: int|
            0 <= k < points.len() ==> local(
                (#[trigger] points[k]).x as int,
                bounds_of(points).min_x as int,
            ) >= PATH_MARGIN && local(points[k].y as int, bounds_of(points).min_y as int)
                >= PATH_MARGIN,
        exists|k: int|
            0 <= k < points.len() && local(points[k].x as int, bounds_of(points).min_x as int)
                == PATH_MARGIN,
        exists|k: int|
            0 <= k < points.len() && local(points[k].y as int, bounds_of(points).min_y as int)
                == PATH_MARGIN,
{
    lemma_bounds_hold(points);
    lemma_bounds_attained(points);
    let kx = choose|k: int| 0 <= k < points.len() && points[k].x == bounds_of(points).min_x;
    let ky = choose|k: int| 0 <= k < points.len() && points[k].y == bounds_of(points).min_y;
    assert(local(points[kx].x as int, bounds_of(points).min_x as int) == PATH_MARGIN);
    assert(local(points[ky].y as int, bounds_of(points).min_y as int) == PATH_MARGIN);
}

} // verus!
