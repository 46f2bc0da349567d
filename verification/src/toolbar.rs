//! Toolbar commands: choosing a tool, stepping back, handing out the
//! selection, and closing.

use vstd::prelude::*;
use vstd::string::StringExecFns;
use crate::selection::SelectionArea;
use crate::shapes::{ArrowShape, BoundedShape};
use crate::state::{EditorState, EditorView, Interaction, ShapeKind, Tool};

verus! {

/// The icons of the toolbar.
#[derive(Clone, Copy, Debug, PartialEq, Eq, Structural)]
pub enum ToolbarIcon {
    Square,
    Circle,
    Arrow,
    Pen,
    Clipboard,
    Undo,
    Download,
    Check,
    Close,
}

/// The icon that a name stands for. Any other name stands for none.
pub open spec fn icon_named(name: Seq<char>) -> Option<ToolbarIcon> {
    if name == "square"@ {
        Some(ToolbarIcon::Square)
    } else if name == "circle"@ {
        Some(ToolbarIcon::Circle)
    } else if name == "arrow"@ {
        Some(ToolbarIcon::Arrow)
    } else if name == "pen"@ {
        Some(ToolbarIcon::Pen)
    } else if name == "clipboard"@ {
        Some(ToolbarIcon::Clipboard)
    } else if name == "undo"@ {
        Some(ToolbarIcon::Undo)
    } else if name == "download"@ {
        Some(ToolbarIcon::Download)
    } else if name == "check"@ {
        Some(ToolbarIcon::Check)
    } else if name == "close"@ {
        Some(ToolbarIcon::Close)
    } else {
        None
    }
}

fn same_text(a: &String, b: &str) -> (r: bool)
    ensures
        r == (a@ == b@),
{
    let other: String = String::from_str(b);
    *a == other
}

impl ToolbarIcon {
    /// The icon that `name` stands for.
    pub fn parse(name: &str) -> (icon: Option<ToolbarIcon>)
        ensures
            icon == icon_named(name@),
    {
        let text: String = String::from_str(name);
        if same_text(&text, "square") {
            Some(ToolbarIcon::Square)
        } else if same_text(&text, "circle") {
            Some(ToolbarIcon::Circle)
        } else if same_text(&text, "arrow") {
            Some(ToolbarIcon::Arrow)
        } else if same_text(&text, "pen") {
            Some(ToolbarIcon::Pen)
        } else if same_text(&text, "clipboard") {
            Some(ToolbarIcon::Clipboard)
        } else if same_text(&text, "undo") {
            Some(ToolbarIcon::Undo)
        } else if same_text(&text, "download") {
            Some(ToolbarIcon::Download)
        } else if same_text(&text, "check") {
            Some(ToolbarIcon::Check)
        } else if same_text(&text, "close") {
            Some(ToolbarIcon::Close)
        } else {
            None
        }
    }

    /// The tool that the icon chooses, if it chooses one.
    pub open spec fn tool(self) -> Option<Tool> {
        match self {
            ToolbarIcon::Square => Some(Tool::Rectangle),
            ToolbarIcon::Circle => Some(Tool::Circle),
            ToolbarIcon::Arrow => Some(Tool::Arrow),
            ToolbarIcon::Pen => Some(Tool::Pen),
            _ => None,
        }
    }

    /// Whether the icon hands out the selection.
    pub open spec fn exports(self) -> bool {
        self == ToolbarIcon::Clipboard || self == ToolbarIcon::Download || self
            == ToolbarIcon::Check
    }
}

impl EditorView {
    /// The state after a tool has been chosen: the current shapes of the
    /// other kinds are put away, and whatever the pointer was doing ends.
    pub open spec fn tool_selected(self, tool: Tool) -> EditorView {
        let s = match tool.kind() {
            Some(kind) => self.commit_except(kind),
            None => self.commit_all(),
        };
        EditorView { active_tool: tool, interaction: Interaction::Idle, ..s }
    }

    /// Whether any shape of a kind is finalized.
    pub open spec fn has_finalized(self, kind: ShapeKind) -> bool {
        match kind {
            ShapeKind::Rectangle => self.rectangles.len() > 0,
            ShapeKind::Circle => self.circles.len() > 0,
            ShapeKind::Arrow => self.arrows.len() > 0,
        }
    }

    /// The state without the last finalized shape of a kind.
    pub open spec fn without_last(self, kind: ShapeKind) -> EditorView {
        match kind {
            ShapeKind::Rectangle => EditorView { rectangles: self.rectangles.drop_last(), ..self },
            ShapeKind::Circle => EditorView { circles: self.circles.drop_last(), ..self },
            ShapeKind::Arrow => EditorView { arrows: self.arrows.drop_last(), ..self },
        }
    }

    /// The state without the last finalized shape of the first of three
    /// kinds that has one.
    pub open spec fn last_dropped(self, first: ShapeKind, second: ShapeKind, third: ShapeKind) -> EditorView {
        if self.has_finalized(first) {
            self.without_last(first)
        } else if self.has_finalized(second) {
            self.without_last(second)
        } else if self.has_finalized(third) {
            self.without_last(third)
        } else {
            self
        }
    }

    /// The state after one step back with no tool active: the current
    /// shapes are put away; then the last stroke goes, else the last arrow,
    /// else the last circle, else the last rectangle; and where there is none
    /// of these, the selection region goes.
    pub open spec fn undone_without_tool(self) -> EditorView {
        let s = self.commit_all();
        if s.pen_path_count > 0 {
            s.stroke_undone()
        } else if s.has_finalized(ShapeKind::Arrow) || s.has_finalized(ShapeKind::Circle)
            || s.has_finalized(ShapeKind::Rectangle) {
            s.last_dropped(ShapeKind::Arrow, ShapeKind::Circle, ShapeKind::Rectangle)
        } else if s.selection.is_selecting {
            EditorView { selection: s.selection.cleared(), ..s }
        } else {
            s
        }
    }

    /// The state after one step back.
    ///
    /// With a shape tool, its current shape goes; where there is none, the
    /// last finalized shape of its kind, else of the next kind that has one.
    /// With the pen, the stroke that is being drawn goes, else the last stroke
    /// that was handed out.
    pub open spec fn undone(self) -> EditorView {
        match self.active_tool {
            Tool::Pen => self.stroke_undone(),
            Tool::Rectangle => if self.current_rectangle is Some {
                EditorView { current_rectangle: None, ..self }
            } else {
                self.last_dropped(ShapeKind::Rectangle, ShapeKind::Circle, ShapeKind::Arrow)
            },
            Tool::Circle => if self.current_circle is Some {
                EditorView { current_circle: None, ..self }
            } else {
                self.last_dropped(ShapeKind::Circle, ShapeKind::Rectangle, ShapeKind::Arrow)
            },
            Tool::Arrow => if self.current_arrow is Some {
                EditorView { current_arrow: None, ..self }
            } else {
                self.last_dropped(ShapeKind::Arrow, ShapeKind::Rectangle, ShapeKind::Circle)
            },
            Tool::Select => self.undone_without_tool(),
        }
    }

    /// The state after a click on the toolbar icon called `name`. The name is
    /// noted, whatever it is; a name that stands for no icon does nothing else.
    pub open spec fn clicked(self, name: Seq<char>) -> EditorView {
        let s = EditorView { selected_icon: name, ..self };
        match icon_named(name) {
            Some(ToolbarIcon::Undo) => s.undone(),
            Some(icon) => match icon.tool() {
                Some(tool) => s.tool_selected(tool),
                None => s,
            },
            None => s,
        }
    }

    /// The selection that a click on the icon called `name` hands out: with
    /// the clipboard, download and check icons the selection region, where one
    /// exists.
    pub open spec fn click_exports(self, name: Seq<char>) -> Option<SelectionArea> {
        match icon_named(name) {
            Some(icon) => if icon.exports() {
                self.selection.normalized()
            } else {
                None
            },
            None => None,
        }
    }
}

impl EditorState {
    /// Chooses a tool.
    pub fn select_tool(&mut self, tool: Tool)
        ensures
            final(self)@ == old(self)@.tool_selected(tool),
    {
        match tool.shape_kind() {
            Some(kind) => self.save_other_objects_except(kind),
            None => self.save_all_current_objects(),
        }
        self.active_tool = tool;
        self.interaction = Interaction::Idle;
    }

    fn drop_last(&mut self, kind: ShapeKind) -> (dropped: bool)
        ensures
            dropped == old(self)@.has_finalized(kind),
            final(self)@ == (if dropped {
                old(self)@.without_last(kind)
            } else {
                old(self)@
            }),
    {
        match kind {
            ShapeKind::Rectangle => {
                let gone: Option<BoundedShape> = self.rectangles.pop();
                gone.is_some()
            },
            ShapeKind::Circle => {
                let gone: Option<BoundedShape> = self.circles.pop();
                gone.is_some()
            },
            ShapeKind::Arrow => {
                let gone: Option<ArrowShape> = self.arrows.pop();
                gone.is_some()
            },
        }
    }

    fn drop_last_of(&mut self, first: ShapeKind, second: ShapeKind, third: ShapeKind) -> (dropped: bool)
        ensures
            final(self)@ == old(self)@.last_dropped(first, second, third),
            dropped == (old(self)@.has_finalized(first) || old(self)@.has_finalized(second) || old(
                self,
            )@.has_finalized(third)),
    {
        if self.drop_last(first) {
            true
        } else if self.drop_last(second) {
            true
        } else {
            self.drop_last(third)
        }
    }

    /// Takes one step back.
    pub fn undo(&mut self)
        ensures
            final(self)@ == old(self)@.undone(),
    {
        match self.active_tool {
            Tool::Pen => self.handle_undo_pen(),
            Tool::Rectangle => {
                if self.current_rectangle.is_some() {
                    self.current_rectangle = None;
                } else {
                    self.drop_last_of(ShapeKind::Rectangle, ShapeKind::Circle, ShapeKind::Arrow);
                }
            },
            Tool::Circle => {
                if self.current_circle.is_some() {
                    self.current_circle = None;
                } else {
                    self.drop_last_of(ShapeKind::Circle, ShapeKind::Rectangle, ShapeKind::Arrow);
                }
            },
            Tool::Arrow => {
                if self.current_arrow.is_some() {
                    self.current_arrow = None;
                } else {
                    self.drop_last_of(ShapeKind::Arrow, ShapeKind::Rectangle, ShapeKind::Circle);
                }
            },
            Tool::Select => {
                self.save_all_current_objects();
                if self.pen_path_count > 0 {
                    self.handle_undo_pen();
                } else if !self.drop_last_of(
                    ShapeKind::Arrow,
                    ShapeKind::Circle,
                    ShapeKind::Rectangle,
                ) {
                    if self.selection.is_selecting {
                        self.selection.clear();
                    }
                }
            },
        }
    }

    /// Takes a click on the toolbar icon called `icon_name`. Returns the
    /// selection to hand out, if the icon asks for it and a region exists, and
    /// whether the editor is to be closed.
    pub fn handle_toolbar_click(&mut self, icon_name: &str) -> (r: (Option<SelectionArea>, bool))
        ensures
            final(self)@ == old(self)@.clicked(icon_name@),
            r.0 == old(self)@.click_exports(icon_name@),
            r.1 == (icon_named(icon_name@) == Some(ToolbarIcon::Close)),
    {
        self.selected_icon = String::from_str(icon_name);
        match ToolbarIcon::parse(icon_name) {
            Some(ToolbarIcon::Square) => {
                self.select_tool(Tool::Rectangle);
                (None, false)
            },
            Some(ToolbarIcon::Circle) => {
                self.select_tool(Tool::Circle);
                (None, false)
            },
            Some(ToolbarIcon::Arrow) => {
                self.select_tool(Tool::Arrow);
                (None, false)
            },
            Some(ToolbarIcon::Pen) => {
                self.select_tool(Tool::Pen);
                (None, false)
            },
            Some(ToolbarIcon::Undo) => {
                self.undo();
                (None, false)
            },
            Some(ToolbarIcon::Close) => (None, true),
            Some(_) => (self.selection.area(), false),
            None => (None, false),
        }
    }
}

} // verus!
