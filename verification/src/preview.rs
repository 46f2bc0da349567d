//! The preview of what has been captured: the pixels cut out of the
//! background, and where and whether the window that shows them stands.

use vstd::prelude::*;
use crate::geometry::{fits_i32, Point};

verus! {

/// What a preview window is: an image of four bytes a pixel, row by row, a
/// position, and whether the window is shown.
pub struct PreviewView {
    pub pixels: Seq<u8>,
    pub width: u32,
    pub height: u32,
    pub position: Point,
    pub visible: bool,
}

/// The state of a preview window. The image always has `width * height * 4`
/// bytes.
#[derive(Debug)]
pub struct PreviewWindowState {
    pixels: Vec<u8>,
    width: u32,
    height: u32,
    position: Point,
    visible: bool,
}

/// The byte at index `i` of the image cut out of a background.
///
/// The image is `sel_width` pixels wide and starts at `(sel_x, sel_y)` of the
/// background, which is `bg_width` by `bg_height` pixels of four bytes each.
/// A pixel that lies outside the background, or whose bytes the background
/// does not hold, is zero.
pub open spec fn cropped_byte(
    background: Seq<u8>,
    bg_width: u32,
    bg_height: u32,
    sel_x: u32,
    sel_y: u32,
    sel_width: u32,
    i: int,
) -> u8 {
    let pixel = i / 4;
    let x = sel_x + pixel % (sel_width as int);
    let y = sel_y + pixel / (sel_width as int);
    let source = (y * bg_width + x) * 4;
    if x < bg_width && y < bg_height && source + 3 < background.len() {
        background[source + i % 4]
    } else {
        0
    }
}

/// Whether an image of the given size can be cut out: it has pixels, and its
/// bytes can be held in memory.
pub open spec fn can_crop(sel_width: u32, sel_height: u32) -> bool {
    sel_width > 0 && sel_height > 0 && sel_width * sel_height * 4 <= usize::MAX
}

impl View for PreviewWindowState {
    type V = PreviewView;

    closed spec fn view(&self) -> PreviewView {
        PreviewView {
            pixels: self.pixels@,
            width: self.width,
            height: self.height,
            position: self.position,
            visible: self.visible,
        }
    }
}

impl PreviewWindowState {
    #[verifier::type_invariant]
    spec fn image_complete(self) -> bool {
        self.pixels@.len() == self.width * self.height * 4
    }

    /// A window for the given image, at the origin and not yet shown.
    pub fn new(image_data: Vec<u8>, width: u32, height: u32) -> (w: PreviewWindowState)
        requires
            image_data@.len() == width * height * 4,
        ensures
            w@ == (PreviewView {
                pixels: image_data@,
                width,
                height,
                position: Point { x: 0, y: 0 },
                visible: false,
            }),
    {
        PreviewWindowState {
            pixels: image_data,
            width,
            height,
            position: Point { x: 0, y: 0 },
            visible: false,
        }
    }

    /// Shows the window.
    pub fn show(&mut self)
        ensures
            final(self)@ == (PreviewView { visible: true, ..old(self)@ }),
    {
        proof {
            use_type_invariant(&*self);
        }
        self.visible = true;
    }

    /// Hides the window.
    pub fn close(&mut self)
        ensures
            final(self)@ == (PreviewView { visible: false, ..old(self)@ }),
    {
        proof {
            use_type_invariant(&*self);
        }
        self.visible = false;
    }

    /// Puts the window at `p`.
    pub fn set_position(&mut self, p: Point)
        ensures
            final(self)@ == (PreviewView { position: p, ..old(self)@ }),
    {
        proof {
            use_type_invariant(&*self);
        }
        self.position = p;
    }

    /// Where the window stands after it was moved by `(dx, dy)`. A move that
    /// would take it out of the range of coordinates is not made.
    pub open spec fn moved_by(at: Point, dx: i32, dy: i32) -> Point {
        if fits_i32(at.x + dx) && fits_i32(at.y + dy) {
            Point { x: (at.x + dx) as i32, y: (at.y + dy) as i32 }
        } else {
            at
        }
    }

    /// Moves the window by `(dx, dy)`.
    pub fn move_window(&mut self, dx: i32, dy: i32)
        ensures
            final(self)@ == (PreviewView {
                position: Self::moved_by(old(self)@.position, dx, dy),
                ..old(self)@
            }),
    {
        proof {
            use_type_invariant(&*self);
        }
        let x: i64 = self.position.x as i64 + dx as i64;
        let y: i64 = self.position.y as i64 + dy as i64;
        if x >= i32::MIN as i64 && x <= i32::MAX as i64 && y >= i32::MIN as i64 && y
            <= i32::MAX as i64 {
            self.position = Point { x: x as i32, y: y as i32 };
        }
    }

    pub fn is_visible(&self) -> (r: bool)
        ensures
            r == self@.visible,
    {
        self.visible
    }

    pub fn position(&self) -> (r: Point)
        ensures
            r == self@.position,
    {
        self.position
    }

    pub fn width(&self) -> (r: u32)
        ensures
            r == self@.width,
    {
        self.width
    }

    pub fn height(&self) -> (r: u32)
        ensures
            r == self@.height,
    {
        self.height
    }

    /// The image, four bytes a pixel, row by row.
    pub fn pixels(&self) -> (r: &Vec<u8>)
        ensures
            r@ == self@.pixels,
            r@.len() == self@.width * self@.height * 4,
    {
        proof {
            use_type_invariant(self);
        }
        &self.pixels
    }
}

/// Cuts the selection out of the background.
pub fn crop_background(
    background: &[u8],
    bg_width: u32,
    bg_height: u32,
    sel_x: u32,
    sel_y: u32,
    sel_width: u32,
    sel_height: u32,
) -> (out: Vec<u8>)
    requires
        can_crop(sel_width, sel_height),
    ensures
        out@.len() == sel_width * sel_height * 4,
        forall|i: int|
            0 <= i < out@.len() ==> out@[i] == cropped_byte(
                background@,
                bg_width,
                bg_height,
                sel_x,
                sel_y,
                sel_width,
                i,
            ),
{
    let pixels: usize = (sel_width as u128 * sel_height as u128) as usize;
    let mut out: Vec<u8> = Vec::new();
    let mut k: usize = 0;
    while k < pixels
        invariant
            0 <= k <= pixels,
            sel_width > 0,
            pixels == sel_width * sel_height,
            pixels * 4 <= usize::MAX,
            out@.len() == 4 * k,
            forall|i: int|
                0 <= i < out@.len() ==> out@[i] == cropped_byte(
                    background@,
                    bg_width,
                    bg_height,
                    sel_x,
                    sel_y,
                    sel_width,
                    i,
                ),
        decreases pixels - k,
    {
        let column: usize = k % (sel_width as usize);
        let row: usize = k / (sel_width as usize);
        proof {
            assert(row < sel_height) by (nonlinear_arith)
                requires
                    row == k / (sel_width as usize),
                    k < sel_width * sel_height,
                    sel_width > 0,
            ;
        }
        let x: u128 = sel_x as u128 + column as u128;
        let y: u128 = sel_y as u128 + row as u128;
        proof {
            assert(y * bg_width <= 0x2_0000_0000 * 0x1_0000_0000) by (nonlinear_arith)
                requires
                    0 <= y <= 0x2_0000_0000,
                    0 <= bg_width <= 0x1_0000_0000,
            ;
        }
        let source: u128 = (y * bg_width as u128 + x) * 4;
        let ghost before = out@;
        if x < bg_width as u128 && y < bg_height as u128 && source + 3 < background.len() as u128 {
            let at: usize = source as usize;
            out.push(background[at]);
            out.push(background[at + 1]);
            out.push(background[at + 2]);
            out.push(background[at + 3]);
        } else {
            out.push(0);
            out.push(0);
            out.push(0);
            out.push(0);
        }
        proof {
            assert forall|i: int| 0 <= i < out@.len() implies out@[i] == cropped_byte(
                background@,
                bg_width,
                bg_height,
                sel_x,
                sel_y,
                sel_width,
                i,
            ) by {
                if i < 4 * k {
                    assert(out@[i] == before[i]);
                } else {
                    assert(i / 4 == k);
                    assert(i % 4 == i - 4 * k);
                }
            }
        }
        k = k + 1;
    }
    out
}

/// The preview of a selection: the selection cut out of the background, in
/// a window that stands at `(window_x, window_y)` and is shown. There is none
/// where the selection has no pixels or is too large to be held in memory.
pub fn extract_selection_from_background(
    background: &[u8],
    bg_width: u32,
    bg_height: u32,
    sel_x: u32,
    sel_y: u32,
    sel_width: u32,
    sel_height: u32,
    window_x: i32,
    window_y: i32,
) -> (preview: Option<PreviewWindowState>)
    ensures
        preview is Some == can_crop(sel_width, sel_height),
        preview is Some ==> {
            let v = preview.unwrap()@;
            &&& v.width == sel_width
            &&& v.height == sel_height
            &&& v.position == (Point { x: window_x, y: window_y })
            &&& v.visible
            &&& v.pixels.len() == sel_width * sel_height * 4
            &&& forall|i: int|
                0 <= i < v.pixels.len() ==> v.pixels[i] == cropped_byte(
                    background@,
                    bg_width,
                    bg_height,
                    sel_x,
                    sel_y,
                    sel_width,
                    i,
                )
        },
{
    if sel_width == 0 || sel_height == 0 {
        return None;
    }
    proof {
        assert(sel_width * sel_height <= 0xffff_ffff * 0xffff_ffff) by (nonlinear_arith)
            requires
                0 <= sel_width <= 0xffff_ffff,
                0 <= sel_height <= 0xffff_ffff,
        ;
    }
    let bytes: u128 = sel_width as u128 * sel_height as u128 * 4;
    if bytes > usize::MAX as u128 {
        return None;
    }
    let pixels: Vec<u8> = crop_background(
        background,
        bg_width,
        bg_height,
        sel_x,
        sel_y,
        sel_width,
        sel_height,
    );
    let mut preview: PreviewWindowState = PreviewWindowState::new(pixels, sel_width, sel_height);
    preview.set_position(Point { x: window_x, y: window_y });
    preview.show();
    Some(preview)
}

} // verus!
