//! The selection region: the one box that marks what is to be captured.
//!
//! The region is drawn with the pointer, and once it stands it can be moved
//! by its body and resized by its eight handles.

use vstd::prelude::*;
use vstd::math::{max, min};
use crate::geometry::{fits_i32, handle_at_point, Edges, HandleId, Point, Size, UNIT};
use crate::shapes::{narrow, Offset};

verus! {

/// Smallest width and height with which a drawn region is kept.
pub const MIN_REGION_SIZE: i32 = 5 * UNIT;

/// Smallest width and height that resizing the region may leave.
pub const MIN_RESIZED_REGION: i32 = 10 * UNIT;

/// What the pointer is doing to the region. Being one value, it cannot say
/// two things at once.
#[derive(Clone, Copy, Debug, PartialEq, Eq, Structural)]
pub enum RegionMode {
    Idle,
    Drawing,
    Dragging,
    Resizing,
}

/// The region as it is handed to whoever cuts it out of the capture: top left
/// corner and a size that is never negative.
#[derive(Clone, Copy, Debug, PartialEq, Eq, Structural)]
pub struct SelectionArea {
    pub x: i32,
    pub y: i32,
    pub width: u32,
    pub height: u32,
}

/// The selection region and what the pointer is doing to it.
#[derive(Clone, Copy, Debug, PartialEq, Eq, Structural)]
pub struct SelectionRegion {
    /// One corner of the box.
    pub start: Point,
    /// The opposite corner.
    pub current: Point,
    /// Whether a region exists at all.
    pub is_selecting: bool,
    pub mode: RegionMode,
    /// While dragging: pointer position minus the top left corner.
    pub drag_offset: Offset,
    /// The handle under the pointer; while resizing, the handle that is held.
    pub active_handle: Option<HandleId>,
}

impl SelectionRegion {
    /// No region, and nothing going on.
    pub open spec fn empty() -> SelectionRegion {
        SelectionRegion {
            start: Point { x: 0, y: 0 },
            current: Point { x: 0, y: 0 },
            is_selecting: false,
            mode: RegionMode::Idle,
            drag_offset: Offset { dx: 0, dy: 0 },
            active_handle: None,
        }
    }

    pub fn new() -> (r: SelectionRegion)
        ensures
            r == SelectionRegion::empty(),
    {
        SelectionRegion {
            start: Point { x: 0, y: 0 },
            current: Point { x: 0, y: 0 },
            is_selecting: false,
            mode: RegionMode::Idle,
            drag_offset: Offset { dx: 0, dy: 0 },
            active_handle: None,
        }
    }

    pub open spec fn is_drawing(self) -> bool {
        self.mode == RegionMode::Drawing
    }

    pub open spec fn is_dragging(self) -> bool {
        self.mode == RegionMode::Dragging
    }

    pub open spec fn is_resizing(self) -> bool {
        self.mode == RegionMode::Resizing
    }

    /// The sides of the box between the two corners.
    pub open spec fn sides(self) -> Edges {
        Edges::spanning(self.start, self.current)
    }

    pub fn edges(&self) -> (e: Edges)
        ensures
            e == self.sides(),
    {
        Edges::from_corners(self.start, self.current)
    }

    /// A region exists and `p` lies in it.
    pub open spec fn holds(self, p: Point) -> bool {
        self.is_selecting && self.sides().holds(p)
    }

    pub fn contains(&self, p: Point) -> (r: bool)
        ensures
            r == self.holds(p),
    {
        self.is_selecting && self.edges().contains(p)
    }

    /// Whether shapes may be touched or begun at `p`: anywhere while there is
    /// no region, and only inside the region once there is one.
    pub open spec fn allows(self, p: Point) -> bool {
        !self.is_selecting || self.sides().holds(p)
    }

    pub fn is_point_allowed(&self, p: Point) -> (r: bool)
        ensures
            r == self.allows(p),
    {
        !self.is_selecting || self.edges().contains(p)
    }

    /// The handle of the region at `p`. Without a region there is none.
    pub open spec fn handle_under(self, p: Point, handle_size: i32) -> Option<HandleId> {
        if self.is_selecting {
            self.sides().handle_at(p, handle_size as int)
        } else {
            None
        }
    }

    pub fn handle_at(&self, p: Point, handle_size: i32) -> (h: Option<HandleId>)
        ensures
            h == self.handle_under(p, handle_size),
    {
        if self.is_selecting {
            handle_at_point(self.edges(), p, handle_size as i64)
        } else {
            None
        }
    }

    /// The region after the pointer went down at `p`.
    ///
    /// A handle under the pointer is taken hold of. Else, where the pointer is
    /// inside the region, the region is grabbed for dragging. Else, where a
    /// region exists, nothing begins. Without a region a new one is begun at
    /// `p`.
    pub open spec fn pressed(self, p: Point, handle_size: i32) -> SelectionRegion {
        let handle = self.handle_under(p, handle_size);
        let seen = SelectionRegion { active_handle: handle, ..self };
        if handle is Some {
            SelectionRegion { mode: RegionMode::Resizing, ..seen }
        } else if self.holds(p) {
            SelectionRegion {
                mode: RegionMode::Dragging,
                drag_offset: Offset {
                    dx: (p.x - self.sides().left) as i64,
                    dy: (p.y - self.sides().top) as i64,
                },
                ..seen
            }
        } else if self.is_selecting {
            seen
        } else {
            SelectionRegion {
                start: p,
                current: p,
                is_selecting: true,
                mode: RegionMode::Drawing,
                ..seen
            }
        }
    }

    pub fn pointer_down(&mut self, p: Point, handle_size: i32)
        ensures
            *final(self) == old(self).pressed(p, handle_size),
    {
        let handle: Option<HandleId> = self.handle_at(p, handle_size);
        self.active_handle = handle;
        if handle.is_some() {
            self.mode = RegionMode::Resizing;
        } else if self.contains(p) {
            let e: Edges = self.edges();
            self.mode = RegionMode::Dragging;
            self.drag_offset = Offset { dx: p.x as i64 - e.left, dy: p.y as i64 - e.top };
        } else if !self.is_selecting {
            self.start = p;
            self.current = p;
            self.is_selecting = true;
            self.mode = RegionMode::Drawing;
        }
    }

    /// The region after the held handle has been pulled to `p`.
    ///
    /// A side that the handle moves goes to `p`, kept on the surface, if that
    /// leaves the box at least `MIN_RESIZED_REGION` on that axis; else the side
    /// stays. The two axes are judged apart. The corners are stored top left
    /// first. Without a compass handle nothing changes.
    pub open spec fn resized_to(self, p: Point, surface: Size) -> SelectionRegion {
        match self.active_handle {
            Some(h) if h.is_compass() => {
                let e = self.sides();
                let pulled_left = max(0, p.x as int);
                let pulled_right = min(surface.width as int, p.x as int);
                let pulled_top = max(0, p.y as int);
                let pulled_bottom = min(surface.height as int, p.y as int);
                let left = if h.moves_left() && e.right - pulled_left >= MIN_RESIZED_REGION {
                    pulled_left
                } else {
                    e.left as int
                };
                let right = if h.moves_right() && pulled_right - e.left >= MIN_RESIZED_REGION {
                    pulled_right
                } else {
                    e.right as int
                };
                let top = if h.moves_top() && e.bottom - pulled_top >= MIN_RESIZED_REGION {
                    pulled_top
                } else {
                    e.top as int
                };
                let bottom = if h.moves_bottom() && pulled_bottom - e.top >= MIN_RESIZED_REGION {
                    pulled_bottom
                } else {
                    e.bottom as int
                };
                SelectionRegion {
                    start: Point { x: left as i32, y: top as i32 },
                    current: Point { x: right as i32, y: bottom as i32 },
                    ..self
                }
            },
            _ => self,
        }
    }

    pub fn resize(&mut self, p: Point, surface: Size)
        ensures
            *final(self) == old(self).resized_to(p, surface),
    {
        let h: HandleId = match self.active_handle {
            Some(h) => h,
            None => {
                return ;
            },
        };
        let e: Edges = self.edges();
        let floor: i64 = MIN_RESIZED_REGION as i64;
        let mut left: i32 = if self.start.x <= self.current.x { self.start.x } else { self.current.x };
        let mut right: i32 = if self.start.x <= self.current.x { self.current.x } else { self.start.x };
        let mut top: i32 = if self.start.y <= self.current.y { self.start.y } else { self.current.y };
        let mut bottom: i32 = if self.start.y <= self.current.y { self.current.y } else { self.start.y };
        match h {
            HandleId::Start | HandleId::End => {
                return ;
            },
            _ => {},
        }
        match h {
            HandleId::Nw | HandleId::W | HandleId::Sw => {
                let pulled: i32 = if p.x >= 0 { p.x } else { 0 };
                if e.right - pulled as i64 >= floor {
                    left = pulled;
                }
            },
            HandleId::Ne | HandleId::E | HandleId::Se => {
                let pulled: i32 = if p.x <= surface.width { p.x } else { surface.width };
                if pulled as i64 - e.left >= floor {
                    right = pulled;
                }
            },
            _ => {},
        }
        match h {
            HandleId::Nw | HandleId::N | HandleId::Ne => {
                let pulled: i32 = if p.y >= 0 { p.y } else { 0 };
                if e.bottom - pulled as i64 >= floor {
                    top = pulled;
                }
            },
            HandleId::Sw | HandleId::S | HandleId::Se => {
                let pulled: i32 = if p.y <= surface.height { p.y } else { surface.height };
                if pulled as i64 - e.top >= floor {
                    bottom = pulled;
                }
            },
            _ => {},
        }
        self.start = Point { x: left, y: top };
        self.current = Point { x: right, y: bottom };
    }

    /// The region moved so that its top left corner lies at `p` minus the
    /// drag offset, kept on the surface: the corner is first lowered so that
    /// the far sides stay on the surface, then raised to the origin. The size
    /// stays, and the corners are stored top left first.
    pub open spec fn dragged_to(self, p: Point, surface: Size) -> SelectionRegion {
        let e = self.sides();
        let w = e.right - e.left;
        let h = e.bottom - e.top;
        let left = max(0, min(p.x - self.drag_offset.dx, surface.width - w));
        let top = max(0, min(p.y - self.drag_offset.dy, surface.height - h));
        if fits_i32(left) && fits_i32(top) && fits_i32(left + w) && fits_i32(top + h) {
            SelectionRegion {
                start: Point { x: left as i32, y: top as i32 },
                current: Point { x: (left + w) as i32, y: (top + h) as i32 },
                ..self
            }
        } else {
            self
        }
    }

    pub fn drag(&mut self, p: Point, surface: Size)
        ensures
            *final(self) == old(self).dragged_to(p, surface),
    {
        let e: Edges = self.edges();
        let w: i128 = e.right as i128 - e.left as i128;
        let h: i128 = e.bottom as i128 - e.top as i128;
        let want_x: i128 = p.x as i128 - self.drag_offset.dx as i128;
        let want_y: i128 = p.y as i128 - self.drag_offset.dy as i128;
        let most_x: i128 = surface.width as i128 - w;
        let most_y: i128 = surface.height as i128 - h;
        let kept_x: i128 = if want_x <= most_x { want_x } else { most_x };
        let kept_y: i128 = if want_y <= most_y { want_y } else { most_y };
        let left: i128 = if kept_x >= 0 { kept_x } else { 0 };
        let top: i128 = if kept_y >= 0 { kept_y } else { 0 };
        match (narrow(left), narrow(top), narrow(left + w), narrow(top + h)) {
            (Some(x0), Some(y0), Some(x1), Some(y1)) => {
                self.start = Point { x: x0, y: y0 };
                self.current = Point { x: x1, y: y1 };
            },
            _ => {},
        }
    }

    /// The region after the pointer moved to `p`: resized, dragged or drawn
    /// further, as the mode says. While nothing is going on, the handle under
    /// the pointer is noted. Drawing is not kept on the surface.
    pub open spec fn moved(self, p: Point, surface: Size, handle_size: i32) -> SelectionRegion {
        match self.mode {
            RegionMode::Resizing => self.resized_to(p, surface),
            RegionMode::Dragging => self.dragged_to(p, surface),
            RegionMode::Drawing => SelectionRegion { current: p, ..self },
            RegionMode::Idle => SelectionRegion {
                active_handle: self.handle_under(p, handle_size),
                ..self
            },
        }
    }

    pub fn pointer_move(&mut self, p: Point, surface: Size, handle_size: i32)
        ensures
            *final(self) == old(self).moved(p, surface, handle_size),
    {
        match self.mode {
            RegionMode::Resizing => self.resize(p, surface),
            RegionMode::Dragging => self.drag(p, surface),
            RegionMode::Drawing => {
                self.current = p;
            },
            RegionMode::Idle => {
                self.active_handle = self.handle_at(p, handle_size);
            },
        }
    }

    /// Whether the box is at least `MIN_REGION_SIZE` wide and high.
    pub open spec fn meets_minimum(self) -> bool {
        let e = self.sides();
        e.right - e.left >= MIN_REGION_SIZE && e.bottom - e.top >= MIN_REGION_SIZE
    }

    pub fn is_large_enough(&self) -> (r: bool)
        ensures
            r == self.meets_minimum(),
    {
        let e: Edges = self.edges();
        e.right - e.left >= MIN_REGION_SIZE as i64 && e.bottom - e.top >= MIN_REGION_SIZE as i64
    }

    /// The region after the pointer went up. Whatever was going on ends. A
    /// region that was being drawn and is too small is given up.
    pub open spec fn let_go(self) -> SelectionRegion {
        match self.mode {
            RegionMode::Drawing => SelectionRegion {
                mode: RegionMode::Idle,
                is_selecting: self.is_selecting && self.meets_minimum(),
                ..self
            },
            _ => SelectionRegion { mode: RegionMode::Idle, ..self },
        }
    }

    pub fn pointer_up(&mut self)
        ensures
            *final(self) == old(self).let_go(),
    {
        match self.mode {
            RegionMode::Drawing => {
                if !self.is_large_enough() {
                    self.is_selecting = false;
                }
            },
            _ => {},
        }
        self.mode = RegionMode::Idle;
    }

    /// The region without a box; nothing is going on any more.
    pub open spec fn cleared(self) -> SelectionRegion {
        SelectionRegion { is_selecting: false, mode: RegionMode::Idle, ..self }
    }

    pub fn clear(&mut self)
        ensures
            *final(self) == old(self).cleared(),
    {
        self.is_selecting = false;
        self.mode = RegionMode::Idle;
    }

    /// The region as top left corner and size, where one exists.
    pub open spec fn normalized(self) -> Option<SelectionArea> {
        if self.is_selecting {
            let e = self.sides();
            Some(
                SelectionArea {
                    x: e.left as i32,
                    y: e.top as i32,
                    width: (e.right - e.left) as u32,
                    height: (e.bottom - e.top) as u32,
                },
            )
        } else {
            None
        }
    }

    pub fn area(&self) -> (a: Option<SelectionArea>)
        ensures
            a == self.normalized(),
            a is Some ==> a.unwrap().x + a.unwrap().width == self.sides().right
                && a.unwrap().y + a.unwrap().height == self.sides().bottom,
    {
        if self.is_selecting {
            let e: Edges = self.edges();
            Some(
                SelectionArea {
                    x: e.left as i32,
                    y: e.top as i32,
                    width: (e.right - e.left) as u32,
                    height: (e.bottom - e.top) as u32,
                },
            )
        } else {
            None
        }
    }
}

/// Resizing the region never leaves it narrower or lower than
/// `MIN_RESIZED_REGION` on an axis that the handle moves, unless it was so
/// before: a side that would come too close to the opposite one stays.
pub proof fn lemma_region_resize_keeps_floor(r: SelectionRegion, p: Point, surface: Size)
    ensures
        ({
            let before = r.sides();
            let after = r.resized_to(p, surface).sides();
            &&& after.right - after.left >= MIN_RESIZED_REGION || (after.left == before.left
                && after.right == before.right)
            &&& after.bottom - after.top >= MIN_RESIZED_REGION || (after.top == before.top
                && after.bottom == before.bottom)
        }),
{
}

/// Dragging the region keeps its size, and keeps it on the surface where it
/// fits on it.
pub proof fn lemma_region_drag_keeps_size(r: SelectionRegion, p: Point, surface: Size)
    ensures
        ({
            let before = r.sides();
            let after = r.dragged_to(p, surface).sides();
            &&& after.right - after.left == before.right - before.left
            &&& after.bottom - after.top == before.bottom - before.top
            &&& (0 <= before.right - before.left <= surface.width && 0 <= before.bottom
                - before.top <= surface.height) ==> (0 <= after.left && after.right
                <= surface.width && 0 <= after.top && after.bottom <= surface.height)
        }),
{
}

/// The three things that the pointer can do to the region exclude each
/// other.
pub proof fn lemma_region_modes_exclusive(r: SelectionRegion)
    ensures
        !(r.is_drawing() && r.is_dragging()),
        !(r.is_drawing() && r.is_resizing()),
        !(r.is_dragging() && r.is_resizing()),
{
}

/// A region that is drawn too small is given up when the pointer goes up.
pub proof fn lemma_small_region_given_up(r: SelectionRegion)
    requires
        r.is_drawing(),
        !r.meets_minimum(),
    ensures
        !r.let_go().is_selecting,
        r.let_go().mode == RegionMode::Idle,
{
}

} // verus!
