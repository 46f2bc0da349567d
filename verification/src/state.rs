//! The editor's state: the selection region, the shapes of each kind, the
//! live freehand stroke, and which tool and which pointer interaction are
//! active.
//!
//! Each kind of shape has one slot for the shape that is being worked on (the
//! current shape) and a list of the shapes that have been put away (the
//! finalized shapes). A shape moves between the two; it is never in both.

use vstd::prelude::*;
use crate::geometry::{HandleId, UNIT};
use crate::pen::{PenPath, PenPathView};
use crate::selection::SelectionRegion;
use crate::shapes::{ArrowShape, BoundedShape, Offset, Outline};

verus! {

/// Side of the square around a handle of the selection region in which the
/// handle is hit, unless another is set.
pub const DEFAULT_HANDLE_SIZE: i32 = 8 * UNIT;

/// Line width of freehand strokes, unless another is set.
pub const DEFAULT_PEN_WIDTH: i32 = 3 * UNIT;

/// The kinds of shape that have a current slot and a finalized list.
#[derive(Clone, Copy, Debug, PartialEq, Eq, Structural)]
pub enum ShapeKind {
    Rectangle,
    Circle,
    Arrow,
}

/// The tool that pointer events go to. `Select`, which draws nothing, sends
/// them to the selection region.
#[derive(Clone, Copy, Debug, PartialEq, Eq, Structural)]
pub enum Tool {
    Select,
    Rectangle,
    Circle,
    Arrow,
    Pen,
}

/// What the pointer is doing to the current shape of the active tool.
#[derive(Clone, Copy, Debug, PartialEq, Eq, Structural)]
pub enum Interaction {
    Idle,
    /// The shape is being drawn.
    Creating,
    /// The shape is held by its body, at this offset.
    Dragging(Offset),
    /// The shape is held by this handle.
    Resizing(HandleId),
}

/// The editor.
#[derive(Debug)]
pub struct EditorState {
    pub selection: SelectionRegion,
    pub current_rectangle: Option<BoundedShape>,
    pub rectangles: Vec<BoundedShape>,
    pub current_circle: Option<BoundedShape>,
    pub circles: Vec<BoundedShape>,
    pub current_arrow: Option<ArrowShape>,
    pub arrows: Vec<ArrowShape>,
    pub active_tool: Tool,
    pub interaction: Interaction,
    /// The toolbar icon that was clicked last.
    pub selected_icon: String,
    pub handle_size: i32,
    /// The freehand stroke that is being drawn, with the colour and width
    /// that strokes are given.
    pub pen: PenPath,
    pub is_drawing_pen: bool,
    /// How many freehand strokes have been handed out and not undone.
    pub pen_path_count: u32,
}

/// The editor's state as plain values.
pub struct EditorView {
    pub selection: SelectionRegion,
    pub current_rectangle: Option<BoundedShape>,
    pub rectangles: Seq<BoundedShape>,
    pub current_circle: Option<BoundedShape>,
    pub circles: Seq<BoundedShape>,
    pub current_arrow: Option<ArrowShape>,
    pub arrows: Seq<ArrowShape>,
    pub active_tool: Tool,
    pub interaction: Interaction,
    pub selected_icon: Seq<char>,
    pub handle_size: i32,
    pub pen: PenPathView,
    pub is_drawing_pen: bool,
    pub pen_path_count: u32,
}

impl ShapeKind {
    /// The tool that draws this kind.
    pub open spec fn tool(self) -> Tool {
        match self {
            ShapeKind::Rectangle => Tool::Rectangle,
            ShapeKind::Circle => Tool::Circle,
            ShapeKind::Arrow => Tool::Arrow,
        }
    }

    pub fn to_tool(self) -> (t: Tool)
        ensures
            t == self.tool(),
    {
        match self {
            ShapeKind::Rectangle => Tool::Rectangle,
            ShapeKind::Circle => Tool::Circle,
            ShapeKind::Arrow => Tool::Arrow,
        }
    }
}

impl Tool {
    /// The kind of shape that the tool draws, if it draws one.
    pub open spec fn kind(self) -> Option<ShapeKind> {
        match self {
            Tool::Rectangle => Some(ShapeKind::Rectangle),
            Tool::Circle => Some(ShapeKind::Circle),
            Tool::Arrow => Some(ShapeKind::Arrow),
            _ => None,
        }
    }

    pub fn shape_kind(self) -> (k: Option<ShapeKind>)
        ensures
            k == self.kind(),
    {
        match self {
            Tool::Rectangle => Some(ShapeKind::Rectangle),
            Tool::Circle => Some(ShapeKind::Circle),
            Tool::Arrow => Some(ShapeKind::Arrow),
            _ => None,
        }
    }
}

impl EditorView {
    /// The current rectangle or circle.
    pub open spec fn current_box(self, outline: Outline) -> Option<BoundedShape> {
        match outline {
            Outline::Rectangle => self.current_rectangle,
            Outline::Ellipse => self.current_circle,
        }
    }

    /// The finalized rectangles or circles.
    pub open spec fn boxes(self, outline: Outline) -> Seq<BoundedShape> {
        match outline {
            Outline::Rectangle => self.rectangles,
            Outline::Ellipse => self.circles,
        }
    }

    pub open spec fn with_current_box(self, outline: Outline, shape: Option<BoundedShape>) -> EditorView {
        match outline {
            Outline::Rectangle => EditorView { current_rectangle: shape, ..self },
            Outline::Ellipse => EditorView { current_circle: shape, ..self },
        }
    }

    pub open spec fn with_boxes(self, outline: Outline, list: Seq<BoundedShape>) -> EditorView {
        match outline {
            Outline::Rectangle => EditorView { rectangles: list, ..self },
            Outline::Ellipse => EditorView { circles: list, ..self },
        }
    }

    /// The state after the current rectangle or circle has been put away: it
    /// goes to the end of its list, no longer selected, if it is large enough
    /// to be kept, and is dropped if it is not.
    pub open spec fn commit_box(self, outline: Outline) -> EditorView {
        match self.current_box(outline) {
            Some(shape) => {
                let emptied = self.with_current_box(outline, None);
                if shape.meets_minimum() {
                    emptied.with_boxes(outline, self.boxes(outline).push(shape.released()))
                } else {
                    emptied
                }
            },
            None => self,
        }
    }

    /// The state after the current arrow has been put away: it goes to the end
    /// of the list, no longer selected, if it is long enough to be kept, and is
    /// dropped if it is not.
    pub open spec fn commit_arrow(self) -> EditorView {
        match self.current_arrow {
            Some(shape) => {
                if shape.meets_minimum() {
                    EditorView {
                        current_arrow: None,
                        arrows: self.arrows.push(shape.released()),
                        ..self
                    }
                } else {
                    EditorView { current_arrow: None, ..self }
                }
            },
            None => self,
        }
    }

    /// The state after the current shape of one kind has been put away.
    pub open spec fn commit(self, kind: ShapeKind) -> EditorView {
        match kind {
            ShapeKind::Rectangle => self.commit_box(Outline::Rectangle),
            ShapeKind::Circle => self.commit_box(Outline::Ellipse),
            ShapeKind::Arrow => self.commit_arrow(),
        }
    }

    /// The state after the current shapes of all kinds have been put away.
    pub open spec fn commit_all(self) -> EditorView {
        self.commit(ShapeKind::Rectangle).commit(ShapeKind::Circle).commit(ShapeKind::Arrow)
    }

    /// The state after the current shapes of all kinds but one have been put
    /// away.
    pub open spec fn commit_except(self, kept: ShapeKind) -> EditorView {
        let a = if kept == ShapeKind::Rectangle {
            self
        } else {
            self.commit(ShapeKind::Rectangle)
        };
        let b = if kept == ShapeKind::Circle {
            a
        } else {
            a.commit(ShapeKind::Circle)
        };
        if kept == ShapeKind::Arrow {
            b
        } else {
            b.commit(ShapeKind::Arrow)
        }
    }

    /// The lists are no longer than a list in memory can be.
    pub open spec fn storable(self) -> bool {
        self.rectangles.len() <= usize::MAX && self.circles.len() <= usize::MAX
            && self.arrows.len() <= usize::MAX
    }

    /// Every finalized shape is large enough to be kept.
    pub open spec fn finalized_sound(self) -> bool {
        &&& forall|i: int| 0 <= i < self.rectangles.len() ==> (#[trigger] self.rectangles[i]).meets_minimum()
        &&& forall|i: int| 0 <= i < self.circles.len() ==> (#[trigger] self.circles[i]).meets_minimum()
        &&& forall|i: int| 0 <= i < self.arrows.len() ==> (#[trigger] self.arrows[i]).meets_minimum()
    }
}

impl View for EditorState {
    type V = EditorView;

    open spec fn view(&self) -> EditorView {
        EditorView {
            selection: self.selection,
            current_rectangle: self.current_rectangle,
            rectangles: self.rectangles@,
            current_circle: self.current_circle,
            circles: self.circles@,
            current_arrow: self.current_arrow,
            arrows: self.arrows@,
            active_tool: self.active_tool,
            interaction: self.interaction,
            selected_icon: self.selected_icon@,
            handle_size: self.handle_size,
            pen: self.pen@,
            is_drawing_pen: self.is_drawing_pen,
            pen_path_count: self.pen_path_count,
        }
    }
}

impl EditorState {
    /// An editor without region, shapes or tool. Strokes are drawn in the
    /// given colour.
    pub fn new(pen_color: String) -> (e: EditorState)
        ensures
            e@ == EditorView::initial(pen_color@),
    {
        EditorState {
            selection: SelectionRegion::new(),
            current_rectangle: None,
            rectangles: Vec::new(),
            current_circle: None,
            circles: Vec::new(),
            current_arrow: None,
            arrows: Vec::new(),
            active_tool: Tool::Select,
            interaction: Interaction::Idle,
            selected_icon: String::new(),
            handle_size: DEFAULT_HANDLE_SIZE,
            pen: PenPath::new(Vec::new(), pen_color, DEFAULT_PEN_WIDTH),
            is_drawing_pen: false,
            pen_path_count: 0,
        }
    }

    pub fn current_box(&self, outline: Outline) -> (s: Option<BoundedShape>)
        ensures
            s == self@.current_box(outline),
    {
        match outline {
            Outline::Rectangle => self.current_rectangle,
            Outline::Ellipse => self.current_circle,
        }
    }

    pub fn set_current_box(&mut self, outline: Outline, shape: Option<BoundedShape>)
        ensures
            final(self)@ == old(self)@.with_current_box(outline, shape),
    {
        match outline {
            Outline::Rectangle => {
                self.current_rectangle = shape;
            },
            Outline::Ellipse => {
                self.current_circle = shape;
            },
        }
    }

    /// Puts the current rectangle or circle away.
    pub fn commit_box(&mut self, outline: Outline)
        ensures
            final(self)@ == old(self)@.commit_box(outline),
    {
        match outline {
            Outline::Rectangle => {
                if let Some(shape) = self.current_rectangle {
                    self.current_rectangle = None;
                    if shape.is_large_enough() {
                        self.rectangles.push(
                            BoundedShape {
                                frame: shape.frame,
                                drag_start: shape.drag_start,
                                drag_end: shape.drag_end,
                                selected: false,
                            },
                        );
                    }
                }
            },
            Outline::Ellipse => {
                if let Some(shape) = self.current_circle {
                    self.current_circle = None;
                    if shape.is_large_enough() {
                        self.circles.push(
                            BoundedShape {
                                frame: shape.frame,
                                drag_start: shape.drag_start,
                                drag_end: shape.drag_end,
                                selected: false,
                            },
                        );
                    }
                }
            },
        }
    }

    /// Puts the current arrow away.
    pub fn commit_arrow(&mut self)
        ensures
            final(self)@ == old(self)@.commit_arrow(),
    {
        if let Some(shape) = self.current_arrow {
            self.current_arrow = None;
            if shape.is_long_enough() {
                self.arrows.push(ArrowShape { start: shape.start, end: shape.end, selected: false });
            }
        }
    }

    /// Puts the current shape of one kind away.
    pub fn commit(&mut self, kind: ShapeKind)
        ensures
            final(self)@ == old(self)@.commit(kind),
    {
        match kind {
            ShapeKind::Rectangle => self.commit_box(Outline::Rectangle),
            ShapeKind::Circle => self.commit_box(Outline::Ellipse),
            ShapeKind::Arrow => self.commit_arrow(),
        }
    }

    /// Puts the current shapes of all kinds away.
    pub fn save_all_current_objects(&mut self)
        ensures
            final(self)@ == old(self)@.commit_all(),
    {
        self.commit(ShapeKind::Rectangle);
        self.commit(ShapeKind::Circle);
        self.commit(ShapeKind::Arrow);
    }

    /// Puts the current shapes of all kinds but one away.
    pub fn save_other_objects_except(&mut self, kept: ShapeKind)
        ensures
            final(self)@ == old(self)@.commit_except(kept),
    {
        match kept {
            ShapeKind::Rectangle => {},
            _ => self.commit(ShapeKind::Rectangle),
        }
        match kept {
            ShapeKind::Circle => {},
            _ => self.commit(ShapeKind::Circle),
        }
        match kept {
            ShapeKind::Arrow => {},
            _ => self.commit(ShapeKind::Arrow),
        }
    }
}

impl EditorView {
    /// The state of a new editor.
    pub open spec fn initial(pen_color: Seq<char>) -> EditorView {
        EditorView {
            selection: SelectionRegion::empty(),
            current_rectangle: None,
            rectangles: Seq::empty(),
            current_circle: None,
            circles: Seq::empty(),
            current_arrow: None,
            arrows: Seq::empty(),
            active_tool: Tool::Select,
            interaction: Interaction::Idle,
            selected_icon: Seq::empty(),
            handle_size: DEFAULT_HANDLE_SIZE,
            pen: PenPathView { points: Seq::empty(), color: pen_color, width: DEFAULT_PEN_WIDTH },
            is_drawing_pen: false,
            pen_path_count: 0,
        }
    }
}

} // verus!
