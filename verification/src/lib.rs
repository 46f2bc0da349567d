//! An annotation editor for screen captures: the state machine behind a
//! full-screen overlay on which a region is selected and rectangles, circles,
//! arrows and freehand strokes are drawn.
//!
//! The editor takes pointer presses, moves and releases and toolbar clicks,
//! and decides what they do: which shape is meant, whether it is drawn, moved
//! or resized, and how its geometry changes. All coordinates are fixed-point
//! numbers, in thousandths of a surface unit, and every geometric test is
//! exact.

pub mod cursor;
pub mod geometry;
pub mod invariants;
pub mod pen;
pub mod pointer;
pub mod preview;
pub mod selection;
pub mod shapes;
pub mod state;
pub mod stroke;
pub mod target;
pub mod toolbar;
