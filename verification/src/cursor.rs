//! The cursor that tells what a press at the pointer's position would do.

use vstd::prelude::*;
use crate::geometry::{HandleId, Point};
use crate::state::{EditorState, EditorView, ShapeKind, Tool};

verus! {

/// The cursors that the editor asks for.
#[derive(Clone, Copy, Debug, PartialEq, Eq, Structural)]
pub enum Cursor {
    NotAllowed,
    NwResize,
    NsResize,
    NeResize,
    EwResize,
    Move,
    Pointer,
    Crosshair,
    Default,
}

/// The cursor over a handle of a box: it shows the direction in which the
/// handle pulls. A handle that is none of the eight gets the default cursor.
pub open spec fn resize_cursor(handle: HandleId) -> Cursor {
    match handle {
        HandleId::Nw | HandleId::Se => Cursor::NwResize,
        HandleId::N | HandleId::S => Cursor::NsResize,
        HandleId::Ne | HandleId::Sw => Cursor::NeResize,
        HandleId::E | HandleId::W => Cursor::EwResize,
        _ => Cursor::Default,
    }
}

/// The cursor over a handle of a box.
pub fn cursor_for_handle(handle: HandleId) -> (c: Cursor)
    ensures
        c == resize_cursor(handle),
{
    match handle {
        HandleId::Nw | HandleId::Se => Cursor::NwResize,
        HandleId::N | HandleId::S => Cursor::NsResize,
        HandleId::Ne | HandleId::Sw => Cursor::NeResize,
        HandleId::E | HandleId::W => Cursor::EwResize,
        _ => Cursor::Default,
    }
}

impl Cursor {
    /// The name under which the cursor is known.
    pub open spec fn label(self) -> Seq<char> {
        match self {
            Cursor::NotAllowed => "not-allowed"@,
            Cursor::NwResize => "nw-resize"@,
            Cursor::NsResize => "ns-resize"@,
            Cursor::NeResize => "ne-resize"@,
            Cursor::EwResize => "ew-resize"@,
            Cursor::Move => "move"@,
            Cursor::Pointer => "pointer"@,
            Cursor::Crosshair => "crosshair"@,
            Cursor::Default => "default"@,
        }
    }

    pub fn as_str(self) -> (s: &'static str)
        ensures
            s@ == self.label(),
    {
        match self {
            Cursor::NotAllowed => "not-allowed",
            Cursor::NwResize => "nw-resize",
            Cursor::NsResize => "ns-resize",
            Cursor::NeResize => "ne-resize",
            Cursor::EwResize => "ew-resize",
            Cursor::Move => "move",
            Cursor::Pointer => "pointer",
            Cursor::Crosshair => "crosshair",
            Cursor::Default => "default",
        }
    }
}

impl EditorView {
    /// Whether the current shape of a kind exists and is selected.
    pub open spec fn current_selected(self, kind: ShapeKind) -> bool {
        match kind {
            ShapeKind::Rectangle => self.current_rectangle is Some
                && self.current_rectangle.unwrap().selected,
            ShapeKind::Circle => self.current_circle is Some
                && self.current_circle.unwrap().selected,
            ShapeKind::Arrow => self.current_arrow is Some && self.current_arrow.unwrap().selected,
        }
    }

    /// The cursor at `p` while the tool of `kind` is active and `p` may be
    /// touched. Only shapes of that kind count: over a handle of the current
    /// shape the resize cursor (for an arrow the pointer), over its body the
    /// move cursor if it is selected and the pointer if it is not, over a
    /// finalized shape the pointer, and elsewhere the crosshair.
    pub open spec fn shape_cursor(self, kind: ShapeKind, p: Point) -> Cursor {
        if self.handle_of(kind, p) is Some {
            if kind == ShapeKind::Arrow {
                Cursor::Pointer
            } else {
                resize_cursor(self.handle_of(kind, p).unwrap())
            }
        } else if self.body_hit(kind, p) {
            if self.current_selected(kind) {
                Cursor::Move
            } else {
                Cursor::Pointer
            }
        } else if self.finalized_hit(kind, p) is Some {
            Cursor::Pointer
        } else {
            Cursor::Crosshair
        }
    }

    /// The cursor at `p` with the selection tool: over a handle of the region,
    /// or while one is held, the resize cursor; inside the region the
    /// crosshair, outside it "not allowed"; without a region the crosshair.
    pub open spec fn selection_cursor(self, p: Point) -> Cursor {
        match self.selection.active_handle {
            Some(handle) => resize_cursor(handle),
            None => if self.selection.is_selecting && !self.selection.holds(p) {
                Cursor::NotAllowed
            } else {
                Cursor::Crosshair
            },
        }
    }

    /// The cursor at `p`.
    pub open spec fn cursor_at(self, p: Point) -> Cursor {
        match self.active_tool {
            Tool::Select => self.selection_cursor(p),
            Tool::Pen => if self.selection.allows(p) {
                Cursor::Crosshair
            } else {
                Cursor::NotAllowed
            },
            tool => if self.selection.allows(p) {
                self.shape_cursor(tool.kind().unwrap(), p)
            } else {
                Cursor::NotAllowed
            },
        }
    }
}

impl EditorState {
    fn current_selected(&self, kind: ShapeKind) -> (r: bool)
        ensures
            r == self@.current_selected(kind),
    {
        match kind {
            ShapeKind::Rectangle => match self.current_rectangle {
                Some(shape) => shape.selected,
                None => false,
            },
            ShapeKind::Circle => match self.current_circle {
                Some(shape) => shape.selected,
                None => false,
            },
            ShapeKind::Arrow => match self.current_arrow {
                Some(shape) => shape.selected,
                None => false,
            },
        }
    }

    fn shape_cursor(&self, kind: ShapeKind, p: Point) -> (c: Cursor)
        ensures
            c == self@.shape_cursor(kind, p),
    {
        if let Some(handle) = self.handle_of(kind, p) {
            match kind {
                ShapeKind::Arrow => Cursor::Pointer,
                _ => cursor_for_handle(handle),
            }
        } else if self.body_hit(kind, p) {
            if self.current_selected(kind) {
                Cursor::Move
            } else {
                Cursor::Pointer
            }
        } else if self.finalized_hit(kind, p).is_some() {
            Cursor::Pointer
        } else {
            Cursor::Crosshair
        }
    }

    /// The cursor at `p`.
    pub fn get_mouse_cursor(&self, p: Point) -> (c: Cursor)
        ensures
            c == self@.cursor_at(p),
    {
        match self.active_tool.shape_kind() {
            Some(kind) => {
                if self.selection.is_point_allowed(p) {
                    self.shape_cursor(kind, p)
                } else {
                    Cursor::NotAllowed
                }
            },
            None => match self.active_tool {
                Tool::Pen => {
                    if self.selection.is_point_allowed(p) {
                        Cursor::Crosshair
                    } else {
                        Cursor::NotAllowed
                    }
                },
                _ => match self.selection.active_handle {
                    Some(handle) => cursor_for_handle(handle),
                    None => {
                        if self.selection.is_selecting && !self.selection.contains(p) {
                            Cursor::NotAllowed
                        } else {
                            Cursor::Crosshair
                        }
                    },
                },
            },
        }
    }

    /// The name of the cursor at `p`.
    pub fn get_mouse_cursor_string(&self, p: Point) -> (s: &'static str)
        ensures
            s@ == self@.cursor_at(p).label(),
    {
        self.get_mouse_cursor(p).as_str()
    }
}

} // verus!
