//! The shapes that can be laid over the capture, and how each one is hit,
//! drawn, moved and resized.
//!
//! A coordinate is stored in 32 bits. An update whose result would not fit
//! leaves the shape as it was.

use vstd::prelude::*;
use vstd::math::min;
use crate::geometry::{
    clamp, distance_squared, endpoint_at, endpoint_at_point, fits_i32, handle_at_point, magnitude,
    point_in_ellipse, point_in_rect, point_near_segment, segment_near, squared_distance, Edges,
    HandleId, Point, Rect, Size, UNIT,
};

verus! {

/// Smallest width and height with which a drawn rectangle or circle is kept.
pub const MIN_SHAPE_SIZE: i32 = 5 * UNIT;

/// Smallest width and height that resizing a rectangle or circle may leave.
pub const MIN_RESIZED_SIZE: i32 = 10 * UNIT;

/// Smallest length with which a drawn arrow is kept.
pub const MIN_ARROW_LENGTH: i32 = 10 * UNIT;

/// Largest distance from an arrow's line at which a point still hits it.
pub const SEGMENT_TOLERANCE: i32 = 5 * UNIT;

/// What is added to the handle size when the handles of a shape are tested.
pub const HANDLE_MARGIN: i32 = 2 * UNIT;

/// How a bounding box is filled: as the rectangle itself, or as the ellipse
/// inscribed in it.
#[derive(Clone, Copy, Debug, PartialEq, Eq, Structural)]
pub enum Outline {
    Rectangle,
    Ellipse,
}

/// Where a shape was grabbed: pointer position minus the shape's corner or
/// start.
#[derive(Clone, Copy, Debug, PartialEq, Eq, Structural)]
pub struct Offset {
    pub dx: i64,
    pub dy: i64,
}

/// A rectangle or a circle, each held as its bounding box.
#[derive(Clone, Copy, Debug, PartialEq, Eq, Structural)]
pub struct BoundedShape {
    pub frame: Rect,
    /// Where drawing began.
    pub drag_start: Point,
    /// The last pointer position that drawing took into account.
    pub drag_end: Point,
    pub selected: bool,
}

/// An arrow from `start` to `end`.
#[derive(Clone, Copy, Debug, PartialEq, Eq, Structural)]
pub struct ArrowShape {
    pub start: Point,
    pub end: Point,
    pub selected: bool,
}

impl Size {
    /// The sides of the surface, whose top left corner is the origin.
    pub open spec fn sides(self) -> Edges {
        Edges { left: 0, top: 0, right: self.width as i64, bottom: self.height as i64 }
    }

    pub fn edges(self) -> (e: Edges)
        ensures
            e == self.sides(),
    {
        Edges { left: 0, top: 0, right: self.width as i64, bottom: self.height as i64 }
    }
}

impl HandleId {
    pub open spec fn moves_left(self) -> bool {
        self == HandleId::Nw || self == HandleId::W || self == HandleId::Sw
    }

    pub open spec fn moves_right(self) -> bool {
        self == HandleId::Ne || self == HandleId::E || self == HandleId::Se
    }

    pub open spec fn moves_top(self) -> bool {
        self == HandleId::Nw || self == HandleId::N || self == HandleId::Ne
    }

    pub open spec fn moves_bottom(self) -> bool {
        self == HandleId::Sw || self == HandleId::S || self == HandleId::Se
    }

    fn pulls_left(self) -> (r: bool)
        ensures
            r == self.moves_left(),
    {
        match self {
            HandleId::Nw | HandleId::W | HandleId::Sw => true,
            _ => false,
        }
    }

    fn pulls_right(self) -> (r: bool)
        ensures
            r == self.moves_right(),
    {
        match self {
            HandleId::Ne | HandleId::E | HandleId::Se => true,
            _ => false,
        }
    }

    fn pulls_top(self) -> (r: bool)
        ensures
            r == self.moves_top(),
    {
        match self {
            HandleId::Nw | HandleId::N | HandleId::Ne => true,
            _ => false,
        }
    }

    fn pulls_bottom(self) -> (r: bool)
        ensures
            r == self.moves_bottom(),
    {
        match self {
            HandleId::Sw | HandleId::S | HandleId::Se => true,
            _ => false,
        }
    }
}

pub(crate) fn clamp_wide(v: i128, lo: i128, hi: i128) -> (r: i128)
    ensures
        r == clamp(v as int, lo as int, hi as int),
{
    let raised: i128 = if v >= lo { v } else { lo };
    if raised <= hi { raised } else { hi }
}

pub(crate) fn narrow(v: i128) -> (r: Option<i32>)
    ensures
        r == (if fits_i32(v as int) { Some(v as i32) } else { None }),
{
    if v >= -0x8000_0000 && v <= 0x7fff_ffff {
        Some(v as i32)
    } else {
        None
    }
}

impl BoundedShape {
    /// A shape of no extent at `p`, as drawing begins.
    pub open spec fn created(p: Point) -> BoundedShape {
        BoundedShape {
            frame: Rect { x: p.x, y: p.y, width: 0, height: 0 },
            drag_start: p,
            drag_end: p,
            selected: true,
        }
    }

    pub fn new_at(p: Point) -> (s: BoundedShape)
        ensures
            s == BoundedShape::created(p),
    {
        BoundedShape {
            frame: Rect { x: p.x, y: p.y, width: 0, height: 0 },
            drag_start: p,
            drag_end: p,
            selected: true,
        }
    }

    /// Whether `p` lies in the shape.
    pub open spec fn hit(self, outline: Outline, p: Point) -> bool {
        match outline {
            Outline::Rectangle => self.frame.contains(p),
            Outline::Ellipse => self.frame.ellipse_contains(p),
        }
    }

    pub fn hit_test(&self, outline: Outline, p: Point) -> (r: bool)
        ensures
            r == self.hit(outline, p),
    {
        match outline {
            Outline::Rectangle => point_in_rect(self.frame, p),
            Outline::Ellipse => point_in_ellipse(self.frame, p),
        }
    }

    /// The handle at `p`. A shape that is not selected shows no handles.
    pub open spec fn handle_under(self, p: Point, handle_size: i32) -> Option<HandleId> {
        if self.selected {
            self.frame.sides().handle_at(p, handle_size + HANDLE_MARGIN)
        } else {
            None
        }
    }

    pub fn handle_at(&self, p: Point, handle_size: i32) -> (h: Option<HandleId>)
        ensures
            h == self.handle_under(p, handle_size),
    {
        if self.selected {
            handle_at_point(self.frame.edges(), p, handle_size as i64 + HANDLE_MARGIN as i64)
        } else {
            None
        }
    }

    /// Where the shape is held when it is grabbed at `p`.
    pub open spec fn grab_offset(self, p: Point) -> Offset {
        Offset { dx: (p.x - self.frame.x) as i64, dy: (p.y - self.frame.y) as i64 }
    }

    pub fn begin_drag(&self, p: Point) -> (o: Offset)
        ensures
            o == self.grab_offset(p),
    {
        Offset { dx: p.x as i64 - self.frame.x as i64, dy: p.y as i64 - self.frame.y as i64 }
    }

    /// The shape drawn from where drawing began to `p`. With a limit, `p` is
    /// first moved into it. The box is kept with a width and height that are
    /// not negative, whichever way the pointer went.
    pub open spec fn drawn_to(self, p: Point, limit: Option<Edges>) -> BoundedShape {
        let cx = match limit {
            Some(e) => clamp(p.x as int, e.left as int, e.right as int),
            None => p.x as int,
        };
        let cy = match limit {
            Some(e) => clamp(p.y as int, e.top as int, e.bottom as int),
            None => p.y as int,
        };
        let w = magnitude(cx - self.drag_start.x);
        let h = magnitude(cy - self.drag_start.y);
        if fits_i32(cx) && fits_i32(cy) && fits_i32(w) && fits_i32(h) {
            BoundedShape {
                frame: Rect {
                    x: min(self.drag_start.x as int, cx) as i32,
                    y: min(self.drag_start.y as int, cy) as i32,
                    width: w as i32,
                    height: h as i32,
                },
                drag_end: Point { x: cx as i32, y: cy as i32 },
                ..self
            }
        } else {
            self
        }
    }

    pub fn update_drawing(&mut self, p: Point, limit: Option<Edges>)
        ensures
            *final(self) == old(self).drawn_to(p, limit),
    {
        let cx: i128 = match limit {
            Some(e) => clamp_wide(p.x as i128, e.left as i128, e.right as i128),
            None => p.x as i128,
        };
        let cy: i128 = match limit {
            Some(e) => clamp_wide(p.y as i128, e.top as i128, e.bottom as i128),
            None => p.y as i128,
        };
        let sx: i128 = self.drag_start.x as i128;
        let sy: i128 = self.drag_start.y as i128;
        let w: i128 = if cx >= sx { cx - sx } else { sx - cx };
        let h: i128 = if cy >= sy { cy - sy } else { sy - cy };
        match (narrow(cx), narrow(cy), narrow(w), narrow(h)) {
            (Some(end_x), Some(end_y), Some(width), Some(height)) => {
                self.frame = Rect {
                    x: if end_x <= self.drag_start.x { end_x } else { self.drag_start.x },
                    y: if end_y <= self.drag_start.y { end_y } else { self.drag_start.y },
                    width,
                    height,
                };
                self.drag_end = Point { x: end_x, y: end_y };
            },
            _ => {},
        }
    }

    /// The shape moved so that its corner lies at `p` minus the offset,
    /// limited to the container: the corner is first raised to the container's
    /// left and top, then lowered so that the far sides do not pass the
    /// container's right and bottom.
    pub open spec fn dragged_to(self, p: Point, offset: Offset, container: Edges) -> BoundedShape {
        let nx = clamp(p.x - offset.dx, container.left as int, container.right - self.frame.width);
        let ny = clamp(p.y - offset.dy, container.top as int, container.bottom - self.frame.height);
        if fits_i32(nx) && fits_i32(ny) {
            BoundedShape { frame: Rect { x: nx as i32, y: ny as i32, ..self.frame }, ..self }
        } else {
            self
        }
    }

    pub fn update_drag(&mut self, p: Point, offset: Offset, container: Edges)
        ensures
            *final(self) == old(self).dragged_to(p, offset, container),
    {
        let nx: i128 = clamp_wide(
            p.x as i128 - offset.dx as i128,
            container.left as i128,
            container.right as i128 - self.frame.width as i128,
        );
        let ny: i128 = clamp_wide(
            p.y as i128 - offset.dy as i128,
            container.top as i128,
            container.bottom as i128 - self.frame.height as i128,
        );
        match (narrow(nx), narrow(ny)) {
            (Some(x), Some(y)) => {
                self.frame = Rect { x, y, width: self.frame.width, height: self.frame.height };
            },
            _ => {},
        }
    }

    /// The shape after the side or corner named by `handle` has been pulled
    /// to `p`. The sides that the handle moves go to `p`; the others stay. The
    /// pull is taken only if every axis that it changes keeps at least
    /// `MIN_RESIZED_SIZE`: a corner pull that fails on one axis changes neither.
    pub open spec fn resized_to(self, handle: HandleId, p: Point) -> BoundedShape {
        let f = self.frame;
        let nx = if handle.moves_left() { p.x as int } else { f.x as int };
        let ny = if handle.moves_top() { p.y as int } else { f.y as int };
        let nw = if handle.moves_left() {
            f.x + f.width - p.x
        } else if handle.moves_right() {
            p.x - f.x
        } else {
            f.width as int
        };
        let nh = if handle.moves_top() {
            f.y + f.height - p.y
        } else if handle.moves_bottom() {
            p.y - f.y
        } else {
            f.height as int
        };
        let wide_enough = (handle.moves_left() || handle.moves_right()) ==> nw >= MIN_RESIZED_SIZE;
        let high_enough = (handle.moves_top() || handle.moves_bottom()) ==> nh >= MIN_RESIZED_SIZE;
        if wide_enough && high_enough && fits_i32(nw) && fits_i32(nh) {
            BoundedShape {
                frame: Rect { x: nx as i32, y: ny as i32, width: nw as i32, height: nh as i32 },
                ..self
            }
        } else {
            self
        }
    }

    pub fn update_resize(&mut self, handle: HandleId, p: Point)
        ensures
            *final(self) == old(self).resized_to(handle, p),
    {
        let x: i128 = self.frame.x as i128;
        let y: i128 = self.frame.y as i128;
        let px: i128 = p.x as i128;
        let py: i128 = p.y as i128;
        let left: bool = handle.pulls_left();
        let right: bool = handle.pulls_right();
        let top: bool = handle.pulls_top();
        let bottom: bool = handle.pulls_bottom();
        let nw: i128 = if left {
            x + self.frame.width as i128 - px
        } else if right {
            px - x
        } else {
            self.frame.width as i128
        };
        let nh: i128 = if top {
            y + self.frame.height as i128 - py
        } else if bottom {
            py - y
        } else {
            self.frame.height as i128
        };
        if (left || right) && nw < MIN_RESIZED_SIZE as i128 {
            return ;
        }
        if (top || bottom) && nh < MIN_RESIZED_SIZE as i128 {
            return ;
        }
        match (narrow(nw), narrow(nh)) {
            (Some(width), Some(height)) => {
                self.frame = Rect {
                    x: if left { p.x } else { self.frame.x },
                    y: if top { p.y } else { self.frame.y },
                    width,
                    height,
                };
            },
            _ => {},
        }
    }

    /// Whether the shape is large enough to be kept.
    pub open spec fn meets_minimum(self) -> bool {
        magnitude(self.frame.width as int) >= MIN_SHAPE_SIZE && magnitude(self.frame.height as int)
            >= MIN_SHAPE_SIZE
    }

    pub fn is_large_enough(&self) -> (r: bool)
        ensures
            r == self.meets_minimum(),
    {
        let w: i64 = self.frame.width as i64;
        let h: i64 = self.frame.height as i64;
        (w >= MIN_SHAPE_SIZE as i64 || w <= -(MIN_SHAPE_SIZE as i64)) && (h >= MIN_SHAPE_SIZE as i64
            || h <= -(MIN_SHAPE_SIZE as i64))
    }

    /// The shape as it stands when drawing ends: selected, its width and
    /// height made positive; or nothing, where it is too small to be kept.
    pub open spec fn settled(self) -> Option<BoundedShape> {
        let w = magnitude(self.frame.width as int);
        let h = magnitude(self.frame.height as int);
        if self.meets_minimum() && fits_i32(w) && fits_i32(h) {
            Some(
                BoundedShape {
                    frame: Rect { width: w as i32, height: h as i32, ..self.frame },
                    selected: true,
                    ..self
                },
            )
        } else {
            None
        }
    }

    pub fn finalize(&self) -> (r: Option<BoundedShape>)
        ensures
            r == self.settled(),
    {
        if !self.is_large_enough() {
            return None;
        }
        let w: i128 = self.frame.width as i128;
        let h: i128 = self.frame.height as i128;
        match (narrow(if w < 0 { -w } else { w }), narrow(if h < 0 { -h } else { h })) {
            (Some(width), Some(height)) => Some(
                BoundedShape {
                    frame: Rect { x: self.frame.x, y: self.frame.y, width, height },
                    drag_start: self.drag_start,
                    drag_end: self.drag_end,
                    selected: true,
                },
            ),
            _ => None,
        }
    }

    /// The shape as it is put away: no longer selected.
    pub open spec fn released(self) -> BoundedShape {
        BoundedShape { selected: false, ..self }
    }

    /// The shape as it is taken up again: selected.
    pub open spec fn picked(self) -> BoundedShape {
        BoundedShape { selected: true, ..self }
    }
}

impl ArrowShape {
    /// An arrow of no length at `p`, as drawing begins.
    pub open spec fn created(p: Point) -> ArrowShape {
        ArrowShape { start: p, end: p, selected: true }
    }

    pub fn new_at(p: Point) -> (s: ArrowShape)
        ensures
            s == ArrowShape::created(p),
    {
        ArrowShape { start: p, end: p, selected: true }
    }

    /// Whether `p` lies on the arrow's line, within `SEGMENT_TOLERANCE`.
    pub open spec fn hit(self, p: Point) -> bool {
        segment_near(self.start, self.end, p, SEGMENT_TOLERANCE as int)
    }

    pub fn hit_test(&self, p: Point) -> (r: bool)
        ensures
            r == self.hit(p),
    {
        point_near_segment(self.start, self.end, p, SEGMENT_TOLERANCE)
    }

    /// The end at `p`. An arrow that is not selected shows no handles.
    pub open spec fn handle_under(self, p: Point, handle_size: i32) -> Option<HandleId> {
        if self.selected {
            endpoint_at(self.start, self.end, p, handle_size + HANDLE_MARGIN)
        } else {
            None
        }
    }

    pub fn handle_at(&self, p: Point, handle_size: i32) -> (h: Option<HandleId>)
        ensures
            h == self.handle_under(p, handle_size),
    {
        if self.selected {
            endpoint_at_point(self.start, self.end, p, handle_size as i64 + HANDLE_MARGIN as i64)
        } else {
            None
        }
    }

    /// Where the arrow is held when it is grabbed at `p`.
    pub open spec fn grab_offset(self, p: Point) -> Offset {
        Offset { dx: (p.x - self.start.x) as i64, dy: (p.y - self.start.y) as i64 }
    }

    pub fn begin_drag(&self, p: Point) -> (o: Offset)
        ensures
            o == self.grab_offset(p),
    {
        Offset { dx: p.x as i64 - self.start.x as i64, dy: p.y as i64 - self.start.y as i64 }
    }

    /// The arrow with its end at `p`, moved into the limit.
    pub open spec fn drawn_to(self, p: Point, limit: Edges) -> ArrowShape {
        let cx = clamp(p.x as int, limit.left as int, limit.right as int);
        let cy = clamp(p.y as int, limit.top as int, limit.bottom as int);
        if fits_i32(cx) && fits_i32(cy) {
            ArrowShape { end: Point { x: cx as i32, y: cy as i32 }, ..self }
        } else {
            self
        }
    }

    pub fn update_drawing(&mut self, p: Point, limit: Edges)
        ensures
            *final(self) == old(self).drawn_to(p, limit),
    {
        let cx: i128 = clamp_wide(p.x as i128, limit.left as i128, limit.right as i128);
        let cy: i128 = clamp_wide(p.y as i128, limit.top as i128, limit.bottom as i128);
        match (narrow(cx), narrow(cy)) {
            (Some(x), Some(y)) => {
                self.end = Point { x, y };
            },
            _ => {},
        }
    }

    /// The arrow moved so that its start lies at `p` minus the offset, the
    /// start limited to the container. The end follows at the same distance.
    pub open spec fn dragged_to(self, p: Point, offset: Offset, container: Edges) -> ArrowShape {
        let sx = clamp(p.x - offset.dx, container.left as int, container.right as int);
        let sy = clamp(p.y - offset.dy, container.top as int, container.bottom as int);
        let ex = sx + (self.end.x - self.start.x);
        let ey = sy + (self.end.y - self.start.y);
        if fits_i32(sx) && fits_i32(sy) && fits_i32(ex) && fits_i32(ey) {
            ArrowShape {
                start: Point { x: sx as i32, y: sy as i32 },
                end: Point { x: ex as i32, y: ey as i32 },
                ..self
            }
        } else {
            self
        }
    }

    pub fn update_drag(&mut self, p: Point, offset: Offset, container: Edges)
        ensures
            *final(self) == old(self).dragged_to(p, offset, container),
    {
        let sx: i128 = clamp_wide(
            p.x as i128 - offset.dx as i128,
            container.left as i128,
            container.right as i128,
        );
        let sy: i128 = clamp_wide(
            p.y as i128 - offset.dy as i128,
            container.top as i128,
            container.bottom as i128,
        );
        let ex: i128 = sx + (self.end.x as i128 - self.start.x as i128);
        let ey: i128 = sy + (self.end.y as i128 - self.start.y as i128);
        match (narrow(sx), narrow(sy), narrow(ex), narrow(ey)) {
            (Some(start_x), Some(start_y), Some(end_x), Some(end_y)) => {
                self.start = Point { x: start_x, y: start_y };
                self.end = Point { x: end_x, y: end_y };
            },
            _ => {},
        }
    }

    /// The arrow with the end named by `handle` at `p`, moved into the
    /// container. A handle that names no end changes nothing.
    pub open spec fn resized_to(self, handle: HandleId, p: Point, container: Edges) -> ArrowShape {
        let cx = clamp(p.x as int, container.left as int, container.right as int);
        let cy = clamp(p.y as int, container.top as int, container.bottom as int);
        if fits_i32(cx) && fits_i32(cy) {
            let q = Point { x: cx as i32, y: cy as i32 };
            match handle {
                HandleId::Start => ArrowShape { start: q, ..self },
                HandleId::End => ArrowShape { end: q, ..self },
                _ => self,
            }
        } else {
            self
        }
    }

    pub fn update_resize(&mut self, handle: HandleId, p: Point, container: Edges)
        ensures
            *final(self) == old(self).resized_to(handle, p, container),
    {
        let cx: i128 = clamp_wide(p.x as i128, container.left as i128, container.right as i128);
        let cy: i128 = clamp_wide(p.y as i128, container.top as i128, container.bottom as i128);
        match (narrow(cx), narrow(cy)) {
            (Some(x), Some(y)) => {
                match handle {
                    HandleId::Start => {
                        self.start = Point { x, y };
                    },
                    HandleId::End => {
                        self.end = Point { x, y };
                    },
                    _ => {},
                }
            },
            _ => {},
        }
    }

    /// Whether the arrow is long enough to be kept: its length is at least
    /// `MIN_ARROW_LENGTH`.
    pub open spec fn meets_minimum(self) -> bool {
        distance_squared(self.start, self.end) >= MIN_ARROW_LENGTH * MIN_ARROW_LENGTH
    }

    pub fn is_long_enough(&self) -> (r: bool)
        ensures
            r == self.meets_minimum(),
    {
        let least: i128 = MIN_ARROW_LENGTH as i128;
        squared_distance(self.start, self.end) >= least * least
    }

    /// The arrow as it stands when drawing ends: selected; or nothing, where
    /// it is too short to be kept.
    pub open spec fn settled(self) -> Option<ArrowShape> {
        if self.meets_minimum() {
            Some(ArrowShape { selected: true, ..self })
        } else {
            None
        }
    }

    pub fn finalize(&self) -> (r: Option<ArrowShape>)
        ensures
            r == self.settled(),
    {
        if self.is_long_enough() {
            Some(ArrowShape { start: self.start, end: self.end, selected: true })
        } else {
            None
        }
    }

    /// The arrow as it is put away: no longer selected.
    pub open spec fn released(self) -> ArrowShape {
        ArrowShape { selected: false, ..self }
    }

    /// The arrow as it is taken up again: selected.
    pub open spec fn picked(self) -> ArrowShape {
        ArrowShape { selected: true, ..self }
    }
}

/// Resizing never leaves a width or height below `MIN_RESIZED_SIZE` on an
/// axis that the handle moves: a pull that would do so changes nothing.
pub proof fn lemma_resize_keeps_floor(shape: BoundedShape, handle: HandleId, p: Point)
    ensures
        ({
            let r = shape.resized_to(handle, p);
            &&& r == shape || ((handle.moves_left() || handle.moves_right()) ==> r.frame.width
                >= MIN_RESIZED_SIZE)
            &&& r == shape || ((handle.moves_top() || handle.moves_bottom()) ==> r.frame.height
                >= MIN_RESIZED_SIZE)
            &&& r.drag_start == shape.drag_start && r.drag_end == shape.drag_end && r.selected
                == shape.selected
        }),
{
}

/// Pulling the east handle sets the width to the distance from the left side
/// to the pointer if that is at least `MIN_RESIZED_SIZE`, and else leaves the
/// shape as it is. Nothing but the width changes.
pub proof fn lemma_resize_east(shape: BoundedShape, p: Point)
    ensures
        ({
            let r = shape.resized_to(HandleId::E, p);
            let wanted = p.x - shape.frame.x;
            &&& wanted >= MIN_RESIZED_SIZE && fits_i32(wanted) ==> r.frame.width == wanted
            &&& wanted < MIN_RESIZED_SIZE ==> r == shape
            &&& r.frame.width == shape.frame.width || r.frame.width >= MIN_RESIZED_SIZE
            &&& r.frame.x == shape.frame.x && r.frame.y == shape.frame.y && r.frame.height
                == shape.frame.height
        }),
{
}

/// Dragging keeps the size of a rectangle or circle, and the vector from the
/// start of an arrow to its end.
pub proof fn lemma_drag_keeps_extent(
    shape: BoundedShape,
    arrow: ArrowShape,
    p: Point,
    offset: Offset,
    container: Edges,
)
    ensures
        shape.dragged_to(p, offset, container).frame.width == shape.frame.width,
        shape.dragged_to(p, offset, container).frame.height == shape.frame.height,
        arrow.dragged_to(p, offset, container).end.x - arrow.dragged_to(p, offset, container).start.x
            == arrow.end.x - arrow.start.x,
        arrow.dragged_to(p, offset, container).end.y - arrow.dragged_to(p, offset, container).start.y
            == arrow.end.y - arrow.start.y,
{
}

/// A shape that stays when drawing ends is large enough, and is kept when it
/// is put away.
pub proof fn lemma_settled_meets_minimum(shape: BoundedShape, arrow: ArrowShape)
    ensures
        shape.settled() is Some ==> shape.settled().unwrap().meets_minimum()
            && shape.settled().unwrap().frame.width >= MIN_SHAPE_SIZE
            && shape.settled().unwrap().frame.height >= MIN_SHAPE_SIZE,
        !shape.meets_minimum() ==> shape.settled() is None,
        arrow.settled() is Some <==> arrow.meets_minimum(),
{
}

} // verus!
