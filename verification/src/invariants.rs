//! What holds of the editor whatever happens to it.

use vstd::prelude::*;
use crate::geometry::{Point, Size};
use crate::shapes::Outline;
use crate::state::{EditorView, Interaction, ShapeKind, Tool};
use crate::target::Target;

verus! {

/// Putting the current shape of a kind away keeps every finalized shape
/// large enough: a shape that is too small is dropped, not listed.
pub proof fn lemma_commit_keeps_sound(s: EditorView, kind: ShapeKind)
    requires
        s.finalized_sound(),
    ensures
        s.commit(kind).finalized_sound(),
{
    let t = s.commit(kind);
    assert forall|i: int| 0 <= i < t.rectangles.len() implies (#[trigger] t.rectangles[i]).meets_minimum() by {
        if i < s.rectangles.len() {
            assert(t.rectangles[i] == s.rectangles[i]);
        }
    }
    assert forall|i: int| 0 <= i < t.circles.len() implies (#[trigger] t.circles[i]).meets_minimum() by {
        if i < s.circles.len() {
            assert(t.circles[i] == s.circles[i]);
        }
    }
    assert forall|i: int| 0 <= i < t.arrows.len() implies (#[trigger] t.arrows[i]).meets_minimum() by {
        if i < s.arrows.len() {
            assert(t.arrows[i] == s.arrows[i]);
        }
    }
}

/// Putting all current shapes away keeps every finalized shape large enough.
pub proof fn lemma_commit_all_keeps_sound(s: EditorView)
    requires
        s.finalized_sound(),
    ensures
        s.commit_all().finalized_sound(),
{
    lemma_commit_keeps_sound(s, ShapeKind::Rectangle);
    lemma_commit_keeps_sound(s.commit(ShapeKind::Rectangle), ShapeKind::Circle);
    lemma_commit_keeps_sound(
        s.commit(ShapeKind::Rectangle).commit(ShapeKind::Circle),
        ShapeKind::Arrow,
    );
}

/// Putting all current shapes but one away keeps every finalized shape large
/// enough.
pub proof fn lemma_commit_except_keeps_sound(s: EditorView, kept: ShapeKind)
    requires
        s.finalized_sound(),
    ensures
        s.commit_except(kept).finalized_sound(),
{
    let a = if kept == ShapeKind::Rectangle {
        s
    } else {
        s.commit(ShapeKind::Rectangle)
    };
    if kept != ShapeKind::Rectangle {
        lemma_commit_keeps_sound(s, ShapeKind::Rectangle);
    }
    let b = if kept == ShapeKind::Circle {
        a
    } else {
        a.commit(ShapeKind::Circle)
    };
    if kept != ShapeKind::Circle {
        lemma_commit_keeps_sound(a, ShapeKind::Circle);
    }
    if kept != ShapeKind::Arrow {
        lemma_commit_keeps_sound(b, ShapeKind::Arrow);
    }
}

/// A press of the pointer keeps every finalized shape large enough.
pub proof fn lemma_press_keeps_sound(s: EditorView, p: Point)
    requires
        s.finalized_sound(),
    ensures
        s.pressed(p).finalized_sound(),
{
    if s.active_tool != Tool::Select {
        lemma_commit_all_keeps_sound(s);
        match s.target_at(p) {
            Target::Blocked => {},
            Target::Handle(kind, _) => {
                lemma_commit_except_keeps_sound(s, kind);
            },
            Target::Body(kind) => {
                lemma_commit_except_keeps_sound(s, kind);
            },
            Target::Finalized(kind, index) => {
                let c = s.commit_all();
                let t = s.taken_up(kind, index as int, p);
                assert forall|i: int| 0 <= i < t.rectangles.len() implies (#[trigger] t.rectangles[i]).meets_minimum() by {
                    if kind == ShapeKind::Rectangle && 0 <= index < c.rectangles.len() {
                        if i < index {
                            assert(t.rectangles[i] == c.rectangles[i]);
                        } else {
                            assert(t.rectangles[i] == c.rectangles[i + 1]);
                        }
                    } else {
                        assert(t.rectangles[i] == c.rectangles[i]);
                    }
                }
                assert forall|i: int| 0 <= i < t.circles.len() implies (#[trigger] t.circles[i]).meets_minimum() by {
                    if kind == ShapeKind::Circle && 0 <= index < c.circles.len() {
                        if i < index {
                            assert(t.circles[i] == c.circles[i]);
                        } else {
                            assert(t.circles[i] == c.circles[i + 1]);
                        }
                    } else {
                        assert(t.circles[i] == c.circles[i]);
                    }
                }
                assert forall|i: int| 0 <= i < t.arrows.len() implies (#[trigger] t.arrows[i]).meets_minimum() by {
                    if kind == ShapeKind::Arrow && 0 <= index < c.arrows.len() {
                        if i < index {
                            assert(t.arrows[i] == c.arrows[i]);
                        } else {
                            assert(t.arrows[i] == c.arrows[i + 1]);
                        }
                    } else {
                        assert(t.arrows[i] == c.arrows[i]);
                    }
                }
            },
            Target::Empty => {},
        }
    }
}

/// Moving and releasing the pointer leave the finalized shapes as they are.
pub proof fn lemma_move_and_release_keep_lists(s: EditorView, p: Point, surface: Size)
    ensures
        s.moved(p, surface).rectangles == s.rectangles,
        s.moved(p, surface).circles == s.circles,
        s.moved(p, surface).arrows == s.arrows,
        s.released().rectangles == s.rectangles,
        s.released().circles == s.circles,
        s.released().arrows == s.arrows,
{
}

/// Choosing a tool keeps every finalized shape large enough.
pub proof fn lemma_tool_keeps_sound(s: EditorView, tool: Tool)
    requires
        s.finalized_sound(),
    ensures
        s.tool_selected(tool).finalized_sound(),
{
    match tool.kind() {
        Some(kind) => lemma_commit_except_keeps_sound(s, kind),
        None => lemma_commit_all_keeps_sound(s),
    }
}

proof fn lemma_drop_keeps_sound(s: EditorView, kind: ShapeKind)
    requires
        s.finalized_sound(),
        s.has_finalized(kind),
    ensures
        s.without_last(kind).finalized_sound(),
{
    let t = s.without_last(kind);
    assert forall|i: int| 0 <= i < t.rectangles.len() implies (#[trigger] t.rectangles[i]).meets_minimum() by {
        assert(t.rectangles[i] == s.rectangles[i]);
    }
    assert forall|i: int| 0 <= i < t.circles.len() implies (#[trigger] t.circles[i]).meets_minimum() by {
        assert(t.circles[i] == s.circles[i]);
    }
    assert forall|i: int| 0 <= i < t.arrows.len() implies (#[trigger] t.arrows[i]).meets_minimum() by {
        assert(t.arrows[i] == s.arrows[i]);
    }
}

proof fn lemma_last_dropped_keeps_sound(s: EditorView, a: ShapeKind, b: ShapeKind, c: ShapeKind)
    requires
        s.finalized_sound(),
    ensures
        s.last_dropped(a, b, c).finalized_sound(),
{
    if s.has_finalized(a) {
        lemma_drop_keeps_sound(s, a);
    } else if s.has_finalized(b) {
        lemma_drop_keeps_sound(s, b);
    } else if s.has_finalized(c) {
        lemma_drop_keeps_sound(s, c);
    }
}

/// A step back keeps every finalized shape large enough.
pub proof fn lemma_undo_keeps_sound(s: EditorView)
    requires
        s.finalized_sound(),
    ensures
        s.undone().finalized_sound(),
{
    lemma_commit_all_keeps_sound(s);
    lemma_last_dropped_keeps_sound(s, ShapeKind::Rectangle, ShapeKind::Circle, ShapeKind::Arrow);
    lemma_last_dropped_keeps_sound(s, ShapeKind::Circle, ShapeKind::Rectangle, ShapeKind::Arrow);
    lemma_last_dropped_keeps_sound(s, ShapeKind::Arrow, ShapeKind::Rectangle, ShapeKind::Circle);
    lemma_last_dropped_keeps_sound(
        s.commit_all(),
        ShapeKind::Arrow,
        ShapeKind::Circle,
        ShapeKind::Rectangle,
    );
}

/// A click on the toolbar keeps every finalized shape large enough.
pub proof fn lemma_click_keeps_sound(s: EditorView, name: Seq<char>)
    requires
        s.finalized_sound(),
    ensures
        s.clicked(name).finalized_sound(),
{
    let named = EditorView { selected_icon: name, ..s };
    lemma_undo_keeps_sound(named);
    lemma_tool_keeps_sound(named, Tool::Rectangle);
    lemma_tool_keeps_sound(named, Tool::Circle);
    lemma_tool_keeps_sound(named, Tool::Arrow);
    lemma_tool_keeps_sound(named, Tool::Pen);
}

/// A new editor has no finalized shapes.
pub proof fn lemma_initial_sound(pen_color: Seq<char>)
    ensures
        EditorView::initial(pen_color).finalized_sound(),
{
}

/// A rectangle or circle that is drawn too small does not outlast the
/// release of the pointer, and is in no list after it.
pub proof fn lemma_small_shape_discarded(s: EditorView, outline: Outline)
    requires
        s.interaction == Interaction::Creating,
        s.current_box(outline) is Some,
        !s.current_box(outline).unwrap().meets_minimum(),
        s.active_tool == (match outline {
            Outline::Rectangle => Tool::Rectangle,
            Outline::Ellipse => Tool::Circle,
        }),
    ensures
        s.released().current_box(outline) is None,
        s.released().boxes(outline) == s.boxes(outline),
        s.commit_box(outline).current_box(outline) is None,
        s.commit_box(outline).boxes(outline) == s.boxes(outline),
{
}

/// With a tool other than the selection tool active, a press inside the body
/// of the selected current rectangle, away from its handles, makes the
/// rectangle tool the active one and begins a drag. No stroke is begun.
pub proof fn lemma_press_on_current_rectangle(s: EditorView, p: Point)
    requires
        s.active_tool != Tool::Select,
        s.selection.allows(p),
        s.current_rectangle is Some,
        s.current_rectangle.unwrap().hit(Outline::Rectangle, p),
        s.handle_of(ShapeKind::Rectangle, p) is None,
        s.handle_of(ShapeKind::Circle, p) is None,
        s.handle_of(ShapeKind::Arrow, p) is None,
        s.active_tool == Tool::Circle ==> !s.body_hit(ShapeKind::Circle, p),
        s.active_tool == Tool::Arrow ==> !s.body_hit(ShapeKind::Arrow, p),
    ensures
        s.target_at(p) == Target::Body(ShapeKind::Rectangle),
        s.pressed(p).active_tool == Tool::Rectangle,
        s.pressed(p).interaction == Interaction::Dragging(
            s.current_rectangle.unwrap().grab_offset(p),
        ),
        s.pressed(p).current_rectangle == Some(s.current_rectangle.unwrap().picked()),
        s.pressed(p).pen == s.pen,
        s.pressed(p).is_drawing_pen == s.is_drawing_pen,
{
}

/// A step back with the selection tool active, when no strokes are counted
/// and no arrow exists, takes away the circle that was made last and leaves
/// every rectangle.
pub proof fn lemma_undo_prefers_circle(s: EditorView)
    requires
        s.active_tool == Tool::Select,
        s.pen_path_count == 0,
        s.current_arrow is None,
        s.arrows.len() == 0,
        s.commit_all().circles.len() > 0,
    ensures
        s.undone().circles == s.commit_all().circles.drop_last(),
        s.undone().rectangles == s.commit_all().rectangles,
        s.undone().current_rectangle is None,
{
}

} // verus!
