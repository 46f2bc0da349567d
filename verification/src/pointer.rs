//! Pointer events: what a press, a move and a release do to the editor.

use vstd::prelude::*;
use crate::geometry::{Edges, HandleId, Point, Size};
use crate::pen::{PenPath, PenPathView};
use crate::shapes::{ArrowShape, BoundedShape};
use crate::state::{EditorState, EditorView, Interaction, ShapeKind, Tool};
use crate::target::Target;

verus! {

impl EditorView {
    /// The box in which a rectangle or circle is drawn: the selection region
    /// where one exists; else there is no limit.
    pub open spec fn drawing_limit(self) -> Option<Edges> {
        if self.selection.is_selecting {
            Some(self.selection.sides())
        } else {
            None
        }
    }

    /// The box in which shapes are moved: the selection region where one
    /// exists, else the surface.
    pub open spec fn container(self, surface: Size) -> Edges {
        if self.selection.is_selecting {
            self.selection.sides()
        } else {
            surface.sides()
        }
    }

    /// The state with the tool of `kind` active. Where that is a change of
    /// tool, the current shapes of the other kinds are put away.
    pub open spec fn switched_to(self, kind: ShapeKind) -> EditorView {
        if self.active_tool == kind.tool() {
            self
        } else {
            EditorView { active_tool: kind.tool(), ..self.commit_except(kind) }
        }
    }

    /// The state after a handle of the current shape of `kind` has been taken
    /// hold of.
    pub open spec fn handle_held(self, kind: ShapeKind, handle: HandleId) -> EditorView {
        EditorView { interaction: Interaction::Resizing(handle), ..self.switched_to(kind) }
    }

    /// The state after the current shape of `kind` has been grabbed by its
    /// body at `p`: it is selected and held at the offset of `p`.
    pub open spec fn body_grabbed(self, kind: ShapeKind, p: Point) -> EditorView {
        let s = self.switched_to(kind);
        match kind {
            ShapeKind::Rectangle => match s.current_rectangle {
                Some(shape) => EditorView {
                    current_rectangle: Some(shape.picked()),
                    interaction: Interaction::Dragging(shape.grab_offset(p)),
                    ..s
                },
                None => s,
            },
            ShapeKind::Circle => match s.current_circle {
                Some(shape) => EditorView {
                    current_circle: Some(shape.picked()),
                    interaction: Interaction::Dragging(shape.grab_offset(p)),
                    ..s
                },
                None => s,
            },
            ShapeKind::Arrow => match s.current_arrow {
                Some(shape) => EditorView {
                    current_arrow: Some(shape.picked()),
                    interaction: Interaction::Dragging(shape.grab_offset(p)),
                    ..s
                },
                None => s,
            },
        }
    }

    /// The state after the finalized shape of `kind` at `index` has been taken
    /// up again at `p`: the current shapes of all kinds are put away, the shape
    /// leaves its list and becomes the current shape of its kind, selected
    /// and held at the offset of `p`, and its tool becomes the active one.
    pub open spec fn taken_up(self, kind: ShapeKind, index: int, p: Point) -> EditorView {
        let s = self.commit_all();
        match kind {
            ShapeKind::Rectangle => if 0 <= index < s.rectangles.len() {
                EditorView {
                    rectangles: s.rectangles.remove(index),
                    current_rectangle: Some(s.rectangles[index].picked()),
                    active_tool: Tool::Rectangle,
                    interaction: Interaction::Dragging(s.rectangles[index].grab_offset(p)),
                    ..s
                }
            } else {
                s
            },
            ShapeKind::Circle => if 0 <= index < s.circles.len() {
                EditorView {
                    circles: s.circles.remove(index),
                    current_circle: Some(s.circles[index].picked()),
                    active_tool: Tool::Circle,
                    interaction: Interaction::Dragging(s.circles[index].grab_offset(p)),
                    ..s
                }
            } else {
                s
            },
            ShapeKind::Arrow => if 0 <= index < s.arrows.len() {
                EditorView {
                    arrows: s.arrows.remove(index),
                    current_arrow: Some(s.arrows[index].picked()),
                    active_tool: Tool::Arrow,
                    interaction: Interaction::Dragging(s.arrows[index].grab_offset(p)),
                    ..s
                }
            } else {
                s
            },
        }
    }

    /// The state after something new has been begun at `p` with the active
    /// tool: the current shapes of all kinds are put away, and a shape of no
    /// extent, or a stroke of one point, begins at `p`.
    pub open spec fn begun_at(self, p: Point) -> EditorView {
        let s = self.commit_all();
        match self.active_tool {
            Tool::Rectangle => EditorView {
                current_rectangle: Some(BoundedShape::created(p)),
                interaction: Interaction::Creating,
                ..s
            },
            Tool::Circle => EditorView {
                current_circle: Some(BoundedShape::created(p)),
                interaction: Interaction::Creating,
                ..s
            },
            Tool::Arrow => EditorView {
                current_arrow: Some(ArrowShape::created(p)),
                interaction: Interaction::Creating,
                ..s
            },
            Tool::Pen => s.stroke_begun(p),
            Tool::Select => self,
        }
    }

    /// The state after the pointer went down at `p`.
    ///
    /// With the selection tool the press goes to the selection region. With
    /// any other tool it takes hold of what lies under the pointer: nothing
    /// outside the selection region; a handle, to resize; a body, to drag; a
    /// finalized shape, to take it up again and drag it; and where no shape
    /// lies, something new is begun with the active tool.
    pub open spec fn pressed(self, p: Point) -> EditorView {
        if self.active_tool == Tool::Select {
            EditorView { selection: self.selection.pressed(p, self.handle_size), ..self }
        } else {
            match self.target_at(p) {
                Target::Blocked => self,
                Target::Handle(kind, handle) => self.handle_held(kind, handle),
                Target::Body(kind) => self.body_grabbed(kind, p),
                Target::Finalized(kind, index) => self.taken_up(kind, index as int, p),
                Target::Empty => self.begun_at(p),
            }
        }
    }

    /// A rectangle or circle after the pointer moved to `p`: drawn further,
    /// dragged or resized, as the interaction says.
    pub open spec fn box_moved(self, shape: BoundedShape, p: Point, surface: Size) -> BoundedShape {
        match self.interaction {
            Interaction::Creating => shape.drawn_to(p, self.drawing_limit()),
            Interaction::Dragging(offset) => shape.dragged_to(p, offset, self.container(surface)),
            Interaction::Resizing(handle) => shape.resized_to(handle, p),
            Interaction::Idle => shape,
        }
    }

    /// An arrow after the pointer moved to `p`: drawn further, dragged or
    /// resized, as the interaction says.
    pub open spec fn arrow_moved(self, shape: ArrowShape, p: Point, surface: Size) -> ArrowShape {
        match self.interaction {
            Interaction::Creating => shape.drawn_to(p, self.container(surface)),
            Interaction::Dragging(offset) => shape.dragged_to(p, offset, self.container(surface)),
            Interaction::Resizing(handle) => shape.resized_to(handle, p, self.container(surface)),
            Interaction::Idle => shape,
        }
    }

    /// The state after the pointer moved to `p`. Only the current shape of
    /// the active tool, the stroke that is being drawn, or with the selection
    /// tool the selection region, can change.
    pub open spec fn moved(self, p: Point, surface: Size) -> EditorView {
        match self.active_tool {
            Tool::Select => EditorView {
                selection: self.selection.moved(p, surface, self.handle_size),
                ..self
            },
            Tool::Rectangle => match self.current_rectangle {
                Some(shape) => EditorView {
                    current_rectangle: Some(self.box_moved(shape, p, surface)),
                    ..self
                },
                None => self,
            },
            Tool::Circle => match self.current_circle {
                Some(shape) => EditorView {
                    current_circle: Some(self.box_moved(shape, p, surface)),
                    ..self
                },
                None => self,
            },
            Tool::Arrow => match self.current_arrow {
                Some(shape) => EditorView {
                    current_arrow: Some(self.arrow_moved(shape, p, surface)),
                    ..self
                },
                None => self,
            },
            Tool::Pen => if self.is_drawing_pen {
                self.stroke_extended(p)
            } else {
                self
            },
        }
    }

    /// A rectangle or circle after the pointer went up: one that was being
    /// drawn stays only if it is large enough; one that was dragged is selected.
    pub open spec fn box_released(self, shape: BoundedShape) -> Option<BoundedShape> {
        match self.interaction {
            Interaction::Creating => shape.settled(),
            Interaction::Dragging(_) => Some(shape.picked()),
            _ => Some(shape),
        }
    }

    /// An arrow after the pointer went up: one that was being drawn stays
    /// only if it is long enough; one that was dragged is selected.
    pub open spec fn arrow_released(self, shape: ArrowShape) -> Option<ArrowShape> {
        match self.interaction {
            Interaction::Creating => shape.settled(),
            Interaction::Dragging(_) => Some(shape.picked()),
            _ => Some(shape),
        }
    }

    /// The state after the pointer went up. Whatever the pointer was doing
    /// ends.
    pub open spec fn released(self) -> EditorView {
        match self.active_tool {
            Tool::Select => EditorView { selection: self.selection.let_go(), ..self },
            Tool::Rectangle => EditorView {
                current_rectangle: match self.current_rectangle {
                    Some(shape) => self.box_released(shape),
                    None => None,
                },
                interaction: Interaction::Idle,
                ..self
            },
            Tool::Circle => EditorView {
                current_circle: match self.current_circle {
                    Some(shape) => self.box_released(shape),
                    None => None,
                },
                interaction: Interaction::Idle,
                ..self
            },
            Tool::Arrow => EditorView {
                current_arrow: match self.current_arrow {
                    Some(shape) => self.arrow_released(shape),
                    None => None,
                },
                interaction: Interaction::Idle,
                ..self
            },
            Tool::Pen => if self.is_drawing_pen {
                self.stroke_finished()
            } else {
                self
            },
        }
    }

    /// The stroke that a release hands out: the one that was being drawn with
    /// the pen, if it is kept.
    pub open spec fn released_stroke(self) -> Option<PenPathView> {
        if self.active_tool == Tool::Pen && self.is_drawing_pen && self.stroke_kept() {
            Some(self.pen)
        } else {
            None
        }
    }
}

impl EditorState {
    /// The box in which a rectangle or circle is drawn.
    pub fn drawing_limit(&self) -> (e: Option<Edges>)
        ensures
            e == self@.drawing_limit(),
    {
        if self.selection.is_selecting {
            Some(self.selection.edges())
        } else {
            None
        }
    }

    /// The box in which shapes are moved.
    pub fn container(&self, surface: Size) -> (e: Edges)
        ensures
            e == self@.container(surface),
    {
        if self.selection.is_selecting {
            self.selection.edges()
        } else {
            surface.edges()
        }
    }

    fn switch_to(&mut self, kind: ShapeKind)
        ensures
            final(self)@ == old(self)@.switched_to(kind),
    {
        let tool: Tool = kind.to_tool();
        if self.active_tool != tool {
            self.save_other_objects_except(kind);
            self.active_tool = tool;
        }
    }

    fn grab_body(&mut self, kind: ShapeKind, p: Point)
        ensures
            final(self)@ == old(self)@.body_grabbed(kind, p),
    {
        self.switch_to(kind);
        match kind {
            ShapeKind::Rectangle => {
                if let Some(shape) = self.current_rectangle {
                    self.interaction = Interaction::Dragging(shape.begin_drag(p));
                    self.current_rectangle = Some(
                        BoundedShape {
                            frame: shape.frame,
                            drag_start: shape.drag_start,
                            drag_end: shape.drag_end,
                            selected: true,
                        },
                    );
                }
            },
            ShapeKind::Circle => {
                if let Some(shape) = self.current_circle {
                    self.interaction = Interaction::Dragging(shape.begin_drag(p));
                    self.current_circle = Some(
                        BoundedShape {
                            frame: shape.frame,
                            drag_start: shape.drag_start,
                            drag_end: shape.drag_end,
                            selected: true,
                        },
                    );
                }
            },
            ShapeKind::Arrow => {
                if let Some(shape) = self.current_arrow {
                    self.interaction = Interaction::Dragging(shape.begin_drag(p));
                    self.current_arrow = Some(
                        ArrowShape { start: shape.start, end: shape.end, selected: true },
                    );
                }
            },
        }
    }

    fn take_up(&mut self, kind: ShapeKind, index: usize, p: Point)
        ensures
            final(self)@ == old(self)@.taken_up(kind, index as int, p),
    {
        self.save_all_current_objects();
        match kind {
            ShapeKind::Rectangle => {
                if index < self.rectangles.len() {
                    let shape: BoundedShape = self.rectangles.remove(index);
                    self.interaction = Interaction::Dragging(shape.begin_drag(p));
                    self.current_rectangle = Some(
                        BoundedShape {
                            frame: shape.frame,
                            drag_start: shape.drag_start,
                            drag_end: shape.drag_end,
                            selected: true,
                        },
                    );
                    self.active_tool = Tool::Rectangle;
                }
            },
            ShapeKind::Circle => {
                if index < self.circles.len() {
                    let shape: BoundedShape = self.circles.remove(index);
                    self.interaction = Interaction::Dragging(shape.begin_drag(p));
                    self.current_circle = Some(
                        BoundedShape {
                            frame: shape.frame,
                            drag_start: shape.drag_start,
                            drag_end: shape.drag_end,
                            selected: true,
                        },
                    );
                    self.active_tool = Tool::Circle;
                }
            },
            ShapeKind::Arrow => {
                if index < self.arrows.len() {
                    let shape: ArrowShape = self.arrows.remove(index);
                    self.interaction = Interaction::Dragging(shape.begin_drag(p));
                    self.current_arrow = Some(
                        ArrowShape { start: shape.start, end: shape.end, selected: true },
                    );
                    self.active_tool = Tool::Arrow;
                }
            },
        }
    }

    fn begin_at(&mut self, p: Point)
        ensures
            final(self)@ == old(self)@.begun_at(p),
    {
        match self.active_tool {
            Tool::Rectangle => {
                self.save_all_current_objects();
                self.current_rectangle = Some(BoundedShape::new_at(p));
                self.interaction = Interaction::Creating;
            },
            Tool::Circle => {
                self.save_all_current_objects();
                self.current_circle = Some(BoundedShape::new_at(p));
                self.interaction = Interaction::Creating;
            },
            Tool::Arrow => {
                self.save_all_current_objects();
                self.current_arrow = Some(ArrowShape::new_at(p));
                self.interaction = Interaction::Creating;
            },
            Tool::Pen => {
                self.save_all_current_objects();
                self.start_pen_drawing(p);
            },
            Tool::Select => {},
        }
    }

    /// Takes a press of the pointer at `p`.
    pub fn handle_mouse_down(&mut self, p: Point)
        ensures
            final(self)@ == old(self)@.pressed(p),
    {
        match self.active_tool {
            Tool::Select => {
                self.selection.pointer_down(p, self.handle_size);
            },
            _ => {
                match self.target_at(p) {
                    Target::Blocked => {},
                    Target::Handle(kind, handle) => {
                        self.switch_to(kind);
                        self.interaction = Interaction::Resizing(handle);
                    },
                    Target::Body(kind) => self.grab_body(kind, p),
                    Target::Finalized(kind, index) => self.take_up(kind, index, p),
                    Target::Empty => self.begin_at(p),
                }
            },
        }
    }

    /// Moves the current rectangle or circle with the pointer.
    fn move_box(&self, shape: BoundedShape, p: Point, surface: Size) -> (r: BoundedShape)
        ensures
            r == self@.box_moved(shape, p, surface),
    {
        let mut moved: BoundedShape = shape;
        match self.interaction {
            Interaction::Creating => moved.update_drawing(p, self.drawing_limit()),
            Interaction::Dragging(offset) => moved.update_drag(p, offset, self.container(surface)),
            Interaction::Resizing(handle) => moved.update_resize(handle, p),
            Interaction::Idle => {},
        }
        moved
    }

    /// Moves the current arrow with the pointer.
    fn move_arrow(&self, shape: ArrowShape, p: Point, surface: Size) -> (r: ArrowShape)
        ensures
            r == self@.arrow_moved(shape, p, surface),
    {
        let mut moved: ArrowShape = shape;
        let container: Edges = self.container(surface);
        match self.interaction {
            Interaction::Creating => moved.update_drawing(p, container),
            Interaction::Dragging(offset) => moved.update_drag(p, offset, container),
            Interaction::Resizing(handle) => moved.update_resize(handle, p, container),
            Interaction::Idle => {},
        }
        moved
    }

    /// Takes a move of the pointer to `p` on a surface of the given size.
    pub fn handle_mouse_move(&mut self, p: Point, surface: Size)
        ensures
            final(self)@ == old(self)@.moved(p, surface),
    {
        match self.active_tool {
            Tool::Select => {
                self.selection.pointer_move(p, surface, self.handle_size);
            },
            Tool::Rectangle => {
                if let Some(shape) = self.current_rectangle {
                    self.current_rectangle = Some(self.move_box(shape, p, surface));
                }
            },
            Tool::Circle => {
                if let Some(shape) = self.current_circle {
                    self.current_circle = Some(self.move_box(shape, p, surface));
                }
            },
            Tool::Arrow => {
                if let Some(shape) = self.current_arrow {
                    self.current_arrow = Some(self.move_arrow(shape, p, surface));
                }
            },
            Tool::Pen => {
                if self.is_drawing_pen {
                    self.handle_pen_drawing(p);
                }
            },
        }
    }

    fn release_box(&self, shape: BoundedShape) -> (r: Option<BoundedShape>)
        ensures
            r == self@.box_released(shape),
    {
        match self.interaction {
            Interaction::Creating => shape.finalize(),
            Interaction::Dragging(_) => Some(
                BoundedShape {
                    frame: shape.frame,
                    drag_start: shape.drag_start,
                    drag_end: shape.drag_end,
                    selected: true,
                },
            ),
            _ => Some(shape),
        }
    }

    fn release_arrow(&self, shape: ArrowShape) -> (r: Option<ArrowShape>)
        ensures
            r == self@.arrow_released(shape),
    {
        match self.interaction {
            Interaction::Creating => shape.finalize(),
            Interaction::Dragging(_) => Some(
                ArrowShape { start: shape.start, end: shape.end, selected: true },
            ),
            _ => Some(shape),
        }
    }

    /// Takes a release of the pointer. Where this ends a freehand stroke that
    /// is kept, the stroke is handed out.
    pub fn handle_mouse_up(&mut self) -> (stroke: Option<PenPath>)
        ensures
            final(self)@ == old(self)@.released(),
            stroke is Some == old(self)@.released_stroke() is Some,
            stroke is Some ==> stroke.unwrap()@ == old(self)@.released_stroke().unwrap(),
    {
        match self.active_tool {
            Tool::Select => {
                self.selection.pointer_up();
                None
            },
            Tool::Rectangle => {
                if let Some(shape) = self.current_rectangle {
                    self.current_rectangle = self.release_box(shape);
                }
                self.interaction = Interaction::Idle;
                None
            },
            Tool::Circle => {
                if let Some(shape) = self.current_circle {
                    self.current_circle = self.release_box(shape);
                }
                self.interaction = Interaction::Idle;
                None
            },
            Tool::Arrow => {
                if let Some(shape) = self.current_arrow {
                    self.current_arrow = self.release_arrow(shape);
                }
                self.interaction = Interaction::Idle;
                None
            },
            Tool::Pen => {
                if self.is_drawing_pen {
                    self.finish_pen_drawing()
                } else {
                    None
                }
            },
        }
    }
}

} // verus!
