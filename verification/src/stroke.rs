//! The editor's freehand stroke: begun by a press, extended by moves,
//! handed out on release.

use vstd::prelude::*;
use crate::geometry::Point;
use crate::pen::{bounds_of, command_of, extended, PathBounds, PenPath, PenPathView};
use crate::state::{EditorState, EditorView};

verus! {

impl EditorView {
    /// The state after a stroke has been begun at `p`: the stroke holds this
    /// one point.
    pub open spec fn stroke_begun(self, p: Point) -> EditorView {
        EditorView {
            pen: PenPathView { points: seq![p], ..self.pen },
            is_drawing_pen: true,
            ..self
        }
    }

    /// The state after the stroke took a sample at `p`.
    pub open spec fn stroke_extended(self, p: Point) -> EditorView {
        EditorView { pen: PenPathView { points: extended(self.pen.points, p), ..self.pen }, ..self }
    }

    /// Whether the stroke is kept when it ends: it has at least two points.
    pub open spec fn stroke_kept(self) -> bool {
        self.pen.points.len() >= 2
    }

    /// The stroke count after one more stroke; it stays where it can count
    /// no further.
    pub open spec fn count_after_stroke(self) -> u32 {
        if self.pen_path_count < u32::MAX {
            (self.pen_path_count + 1) as u32
        } else {
            self.pen_path_count
        }
    }

    /// The state after the stroke has ended: no points are left and nothing
    /// is being drawn; a stroke that is kept has been counted.
    pub open spec fn stroke_finished(self) -> EditorView {
        EditorView {
            pen: PenPathView { points: Seq::empty(), ..self.pen },
            is_drawing_pen: false,
            pen_path_count: if self.stroke_kept() {
                self.count_after_stroke()
            } else {
                self.pen_path_count
            },
            ..self
        }
    }

    /// The state after one step back: a stroke that is being drawn is given
    /// up; else the last stroke that was handed out is no longer counted.
    pub open spec fn stroke_undone(self) -> EditorView {
        if self.is_drawing_pen {
            EditorView {
                pen: PenPathView { points: Seq::empty(), ..self.pen },
                is_drawing_pen: false,
                ..self
            }
        } else if self.pen_path_count > 0 {
            EditorView { pen_path_count: (self.pen_path_count - 1) as u32, ..self }
        } else {
            self
        }
    }
}

impl EditorState {
    /// Begins a stroke at `p`.
    pub fn start_pen_drawing(&mut self, p: Point)
        ensures
            final(self)@ == old(self)@.stroke_begun(p),
    {
        self.pen.begin(p);
        self.is_drawing_pen = true;
    }

    /// Takes a sample at `p`: the point is added to the stroke unless it lies
    /// too close to the last one.
    pub fn handle_pen_drawing(&mut self, p: Point)
        ensures
            final(self)@ == old(self)@.stroke_extended(p),
    {
        self.pen.extend(p);
    }

    /// Ends the stroke. A stroke of at least two points is handed out and
    /// counted; a shorter one is dropped.
    pub fn finish_pen_drawing(&mut self) -> (path: Option<PenPath>)
        ensures
            final(self)@ == old(self)@.stroke_finished(),
            path is Some == old(self)@.stroke_kept(),
            path is Some ==> path.unwrap()@ == old(self)@.pen,
    {
        self.is_drawing_pen = false;
        if self.pen.len() >= 2 {
            let path: PenPath = self.pen.take();
            if self.pen_path_count < u32::MAX {
                self.pen_path_count = self.pen_path_count + 1;
            }
            Some(path)
        } else {
            self.pen.clear();
            None
        }
    }

    /// Takes one step back in freehand drawing.
    pub fn handle_undo_pen(&mut self)
        ensures
            final(self)@ == old(self)@.stroke_undone(),
    {
        if self.is_drawing_pen {
            self.pen.clear();
            self.is_drawing_pen = false;
        } else if self.pen_path_count > 0 {
            self.pen_path_count = self.pen_path_count - 1;
        }
    }

    /// The bounding box and the path command of the stroke that is being
    /// drawn, brought up to date first where points have been added since they
    /// were last read.
    pub fn update_current_pen_path(&mut self) -> (r: (PathBounds, String))
        ensures
            final(self)@ == old(self)@,
            r.0 == bounds_of(old(self)@.pen.points),
            r.1@ == command_of(old(self)@.pen.points),
    {
        let bounds: PathBounds = self.pen.get_bounds();
        let commands: String = self.pen.get_commands();
        (bounds, commands)
    }
}

} // verus!
