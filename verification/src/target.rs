//! What lies under the pointer: which shape, and which part of it, a press at
//! a point would take hold of.
//!
//! Handles win over bodies, the active tool's shape over the others, and
//! current shapes over finalized ones.

use vstd::prelude::*;
use crate::geometry::{HandleId, Point};
use crate::shapes::{ArrowShape, BoundedShape, Outline};
use crate::state::{EditorState, EditorView, ShapeKind};

verus! {

/// What a press at some point would take hold of.
#[derive(Clone, Copy, Debug, PartialEq, Eq, Structural)]
pub enum Target {
    /// The point lies outside the selection region: nothing may be touched.
    Blocked,
    /// A handle of the current shape of a kind.
    Handle(ShapeKind, HandleId),
    /// The body of the current shape of a kind.
    Body(ShapeKind),
    /// The finalized shape of a kind at an index of its list.
    Finalized(ShapeKind, usize),
    /// No shape.
    Empty,
}

/// The index of the first rectangle or circle of the list, from `from` on,
/// that `p` lies in.
pub open spec fn first_box_hit(list: Seq<BoundedShape>, outline: Outline, p: Point, from: int) -> Option<int>
    decreases list.len() - from,
{
    if from < 0 || from >= list.len() {
        None
    } else if list[from].hit(outline, p) {
        Some(from)
    } else {
        first_box_hit(list, outline, p, from + 1)
    }
}

/// The index of the first arrow of the list, from `from` on, that `p` lies on.
pub open spec fn first_arrow_hit(list: Seq<ArrowShape>, p: Point, from: int) -> Option<int>
    decreases list.len() - from,
{
    if from < 0 || from >= list.len() {
        None
    } else if list[from].hit(p) {
        Some(from)
    } else {
        first_arrow_hit(list, p, from + 1)
    }
}

/// The first hit of a list is a hit, and nothing before it is one; there is
/// none exactly when nothing in the list is hit.
pub proof fn lemma_first_box_hit(list: Seq<BoundedShape>, outline: Outline, p: Point, from: int)
    requires
        0 <= from,
    ensures
        match first_box_hit(list, outline, p, from) {
            Some(i) => from <= i < list.len() && list[i].hit(outline, p) && forall|j: int|
                from <= j < i ==> !(#[trigger] list[j]).hit(outline, p),
            None => forall|j: int| from <= j < list.len() ==> !(#[trigger] list[j]).hit(outline, p),
        },
    decreases list.len() - from,
{
    if from < list.len() && !list[from].hit(outline, p) {
        lemma_first_box_hit(list, outline, p, from + 1);
    }
}

/// The first hit of a list is a hit, and nothing before it is one; there is
/// none exactly when nothing in the list is hit.
pub proof fn lemma_first_arrow_hit(list: Seq<ArrowShape>, p: Point, from: int)
    requires
        0 <= from,
    ensures
        match first_arrow_hit(list, p, from) {
            Some(i) => from <= i < list.len() && list[i].hit(p) && forall|j: int|
                from <= j < i ==> !(#[trigger] list[j]).hit(p),
            None => forall|j: int| from <= j < list.len() ==> !(#[trigger] list[j]).hit(p),
        },
    decreases list.len() - from,
{
    if from < list.len() && !list[from].hit(p) {
        lemma_first_arrow_hit(list, p, from + 1);
    }
}

proof fn lemma_box_hit_found(list: Seq<BoundedShape>, outline: Outline, p: Point, from: int, at: int)
    requires
        0 <= from <= at,
        at < list.len() ==> list[at].hit(outline, p),
        forall|j: int| from <= j < at && j < list.len() ==> !(#[trigger] list[j]).hit(outline, p),
    ensures
        first_box_hit(list, outline, p, from) == (if at < list.len() {
            Some(at)
        } else {
            None
        }),
    decreases list.len() - from,
{
    if from < list.len() && from < at {
        lemma_box_hit_found(list, outline, p, from + 1, at);
    }
}

proof fn lemma_arrow_hit_found(list: Seq<ArrowShape>, p: Point, from: int, at: int)
    requires
        0 <= from <= at,
        at < list.len() ==> list[at].hit(p),
        forall|j: int| from <= j < at && j < list.len() ==> !(#[trigger] list[j]).hit(p),
    ensures
        first_arrow_hit(list, p, from) == (if at < list.len() {
            Some(at)
        } else {
            None
        }),
    decreases list.len() - from,
{
    if from < list.len() && from < at {
        lemma_arrow_hit_found(list, p, from + 1, at);
    }
}

/// The index of the first rectangle or circle of the list that `p` lies in.
pub fn find_box(list: &Vec<BoundedShape>, outline: Outline, p: Point) -> (r: Option<usize>)
    ensures
        r is Some == first_box_hit(list@, outline, p, 0) is Some,
        r is Some ==> r.unwrap() == first_box_hit(list@, outline, p, 0).unwrap(),
{
    let mut i: usize = 0;
    while i < list.len()
        invariant
            0 <= i <= list.len(),
            forall|j: int| 0 <= j < i ==> !(#[trigger] list@[j]).hit(outline, p),
        decreases list.len() - i,
    {
        if list[i].hit_test(outline, p) {
            proof {
                lemma_box_hit_found(list@, outline, p, 0, i as int);
            }
            return Some(i);
        }
        i = i + 1;
    }
    proof {
        lemma_box_hit_found(list@, outline, p, 0, i as int);
    }
    None
}

/// The index of the first arrow of the list that `p` lies on.
pub fn find_arrow(list: &Vec<ArrowShape>, p: Point) -> (r: Option<usize>)
    ensures
        r is Some == first_arrow_hit(list@, p, 0) is Some,
        r is Some ==> r.unwrap() == first_arrow_hit(list@, p, 0).unwrap(),
{
    let mut i: usize = 0;
    while i < list.len()
        invariant
            0 <= i <= list.len(),
            forall|j: int| 0 <= j < i ==> !(#[trigger] list@[j]).hit(p),
        decreases list.len() - i,
    {
        if list[i].hit_test(p) {
            proof {
                lemma_arrow_hit_found(list@, p, 0, i as int);
            }
            return Some(i);
        }
        i = i + 1;
    }
    proof {
        lemma_arrow_hit_found(list@, p, 0, i as int);
    }
    None
}

impl EditorView {
    /// The handle at `p` of the current shape of a kind.
    pub open spec fn handle_of(self, kind: ShapeKind, p: Point) -> Option<HandleId> {
        match kind {
            ShapeKind::Rectangle => match self.current_rectangle {
                Some(shape) => shape.handle_under(p, self.handle_size),
                None => None,
            },
            ShapeKind::Circle => match self.current_circle {
                Some(shape) => shape.handle_under(p, self.handle_size),
                None => None,
            },
            ShapeKind::Arrow => match self.current_arrow {
                Some(shape) => shape.handle_under(p, self.handle_size),
                None => None,
            },
        }
    }

    /// Whether `p` lies in the current shape of a kind.
    pub open spec fn body_hit(self, kind: ShapeKind, p: Point) -> bool {
        match kind {
            ShapeKind::Rectangle => match self.current_rectangle {
                Some(shape) => shape.hit(Outline::Rectangle, p),
                None => false,
            },
            ShapeKind::Circle => match self.current_circle {
                Some(shape) => shape.hit(Outline::Ellipse, p),
                None => false,
            },
            ShapeKind::Arrow => match self.current_arrow {
                Some(shape) => shape.hit(p),
                None => false,
            },
        }
    }

    /// The index of the first finalized shape of a kind that `p` lies in.
    pub open spec fn finalized_hit(self, kind: ShapeKind, p: Point) -> Option<int> {
        match kind {
            ShapeKind::Rectangle => first_box_hit(self.rectangles, Outline::Rectangle, p, 0),
            ShapeKind::Circle => first_box_hit(self.circles, Outline::Ellipse, p, 0),
            ShapeKind::Arrow => first_arrow_hit(self.arrows, p, 0),
        }
    }

    /// What a press at `p` would take hold of. The first of these that
    /// applies:
    ///
    /// 1. outside the selection region, where one exists: nothing may be touched;
    /// 2. a handle of the current shape of the active tool;
    /// 3. the body of the current shape of the active tool;
    /// 4. a handle of the current rectangle, circle or arrow, in this order;
    /// 5. the body of the current rectangle, circle or arrow, in this order;
    /// 6. the first finalized rectangle under the pointer, else the first
    ///    circle, else the first arrow;
    /// 7. no shape.
    pub open spec fn target_at(self, p: Point) -> Target {
        if !self.selection.allows(p) {
            Target::Blocked
        } else if self.active_tool.kind() is Some && self.handle_of(
            self.active_tool.kind().unwrap(),
            p,
        ) is Some {
            Target::Handle(
                self.active_tool.kind().unwrap(),
                self.handle_of(self.active_tool.kind().unwrap(), p).unwrap(),
            )
        } else if self.active_tool.kind() is Some && self.body_hit(
            self.active_tool.kind().unwrap(),
            p,
        ) {
            Target::Body(self.active_tool.kind().unwrap())
        } else if self.handle_of(ShapeKind::Rectangle, p) is Some {
            Target::Handle(ShapeKind::Rectangle, self.handle_of(ShapeKind::Rectangle, p).unwrap())
        } else if self.handle_of(ShapeKind::Circle, p) is Some {
            Target::Handle(ShapeKind::Circle, self.handle_of(ShapeKind::Circle, p).unwrap())
        } else if self.handle_of(ShapeKind::Arrow, p) is Some {
            Target::Handle(ShapeKind::Arrow, self.handle_of(ShapeKind::Arrow, p).unwrap())
        } else if self.body_hit(ShapeKind::Rectangle, p) {
            Target::Body(ShapeKind::Rectangle)
        } else if self.body_hit(ShapeKind::Circle, p) {
            Target::Body(ShapeKind::Circle)
        } else if self.body_hit(ShapeKind::Arrow, p) {
            Target::Body(ShapeKind::Arrow)
        } else if self.finalized_hit(ShapeKind::Rectangle, p) is Some {
            Target::Finalized(
                ShapeKind::Rectangle,
                self.finalized_hit(ShapeKind::Rectangle, p).unwrap() as usize,
            )
        } else if self.finalized_hit(ShapeKind::Circle, p) is Some {
            Target::Finalized(
                ShapeKind::Circle,
                self.finalized_hit(ShapeKind::Circle, p).unwrap() as usize,
            )
        } else if self.finalized_hit(ShapeKind::Arrow, p) is Some {
            Target::Finalized(
                ShapeKind::Arrow,
                self.finalized_hit(ShapeKind::Arrow, p).unwrap() as usize,
            )
        } else {
            Target::Empty
        }
    }
}

impl EditorState {
    /// The handle at `p` of the current shape of a kind.
    pub fn handle_of(&self, kind: ShapeKind, p: Point) -> (h: Option<HandleId>)
        ensures
            h == self@.handle_of(kind, p),
    {
        match kind {
            ShapeKind::Rectangle => match self.current_rectangle {
                Some(shape) => shape.handle_at(p, self.handle_size),
                None => None,
            },
            ShapeKind::Circle => match self.current_circle {
                Some(shape) => shape.handle_at(p, self.handle_size),
                None => None,
            },
            ShapeKind::Arrow => match self.current_arrow {
                Some(shape) => shape.handle_at(p, self.handle_size),
                None => None,
            },
        }
    }

    /// Whether `p` lies in the current shape of a kind.
    pub fn body_hit(&self, kind: ShapeKind, p: Point) -> (r: bool)
        ensures
            r == self@.body_hit(kind, p),
    {
        match kind {
            ShapeKind::Rectangle => match self.current_rectangle {
                Some(shape) => shape.hit_test(Outline::Rectangle, p),
                None => false,
            },
            ShapeKind::Circle => match self.current_circle {
                Some(shape) => shape.hit_test(Outline::Ellipse, p),
                None => false,
            },
            ShapeKind::Arrow => match self.current_arrow {
                Some(shape) => shape.hit_test(p),
                None => false,
            },
        }
    }

    /// The index of the first finalized shape of a kind that `p` lies in.
    pub fn finalized_hit(&self, kind: ShapeKind, p: Point) -> (r: Option<usize>)
        ensures
            r is Some == self@.finalized_hit(kind, p) is Some,
            r is Some ==> r.unwrap() == self@.finalized_hit(kind, p).unwrap(),
    {
        match kind {
            ShapeKind::Rectangle => find_box(&self.rectangles, Outline::Rectangle, p),
            ShapeKind::Circle => find_box(&self.circles, Outline::Ellipse, p),
            ShapeKind::Arrow => find_arrow(&self.arrows, p),
        }
    }

    /// What a press at `p` would take hold of.
    pub fn target_at(&self, p: Point) -> (t: Target)
        ensures
            t == self@.target_at(p),
    {
        if !self.selection.is_point_allowed(p) {
            return Target::Blocked;
        }
        if let Some(kind) = self.active_tool.shape_kind() {
            if let Some(h) = self.handle_of(kind, p) {
                return Target::Handle(kind, h);
            }
            if self.body_hit(kind, p) {
                return Target::Body(kind);
            }
        }
        if let Some(h) = self.handle_of(ShapeKind::Rectangle, p) {
            return Target::Handle(ShapeKind::Rectangle, h);
        }
        if let Some(h) = self.handle_of(ShapeKind::Circle, p) {
            return Target::Handle(ShapeKind::Circle, h);
        }
        if let Some(h) = self.handle_of(ShapeKind::Arrow, p) {
            return Target::Handle(ShapeKind::Arrow, h);
        }
        if self.body_hit(ShapeKind::Rectangle, p) {
            return Target::Body(ShapeKind::Rectangle);
        }
        if self.body_hit(ShapeKind::Circle, p) {
            return Target::Body(ShapeKind::Circle);
        }
        if self.body_hit(ShapeKind::Arrow, p) {
            return Target::Body(ShapeKind::Arrow);
        }
        if let Some(i) = self.finalized_hit(ShapeKind::Rectangle, p) {
            return Target::Finalized(ShapeKind::Rectangle, i);
        }
        if let Some(i) = self.finalized_hit(ShapeKind::Circle, p) {
            return Target::Finalized(ShapeKind::Circle, i);
        }
        if let Some(i) = self.finalized_hit(ShapeKind::Arrow, p) {
            return Target::Finalized(ShapeKind::Arrow, i);
        }
        Target::Empty
    }
}

/// A finalized shape that is found under the pointer lies in its list, and
/// the pointer lies in it and in no shape before it in that list.
pub proof fn lemma_finalized_target(s: EditorView, p: Point, kind: ShapeKind, i: usize)
    requires
        s.storable(),
        s.target_at(p) == Target::Finalized(kind, i),
    ensures
        s.finalized_hit(kind, p) == Some(i as int),
        kind == ShapeKind::Rectangle ==> i < s.rectangles.len() && s.rectangles[i as int].hit(
            Outline::Rectangle,
            p,
        ),
        kind == ShapeKind::Circle ==> i < s.circles.len() && s.circles[i as int].hit(
            Outline::Ellipse,
            p,
        ),
        kind == ShapeKind::Arrow ==> i < s.arrows.len() && s.arrows[i as int].hit(p),
{
    lemma_first_box_hit(s.rectangles, Outline::Rectangle, p, 0);
    lemma_first_box_hit(s.circles, Outline::Ellipse, p, 0);
    lemma_first_arrow_hit(s.arrows, p, 0);
}

} // verus!
