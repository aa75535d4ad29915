//! Draw commands: rendering a widget tree produces a sequence of these
//! painting instructions, which the rendering backend executes in order.

use vstd::prelude::*;

use crate::geometry::half_toward_zero;
use crate::geometry::third_toward_zero;
use crate::geometry::UIRect;

verus! {

/// An RGBA colour with 8-bit channels. The rendering backend maps it to
/// whatever colour representation it uses.
#[derive(Debug, Clone, Copy, PartialEq, Eq, Structural)]
pub struct Color {
    pub r: u8,
    pub g: u8,
    pub b: u8,
    pub a: u8,
}

impl Color {
    /// Create a colour from its four channels.
    pub fn new(r: u8, g: u8, b: u8, a: u8) -> (c: Color)
        ensures
            c == (Color { r, g, b, a }),
    {
        Color { r, g, b, a }
    }
}

/// Horizontal text alignment inside a bounding rectangle.
#[derive(Debug, Clone, Copy, PartialEq, Eq, Structural)]
pub enum TextAlignment {
    Left,
    Center,
    Right,
}

/// One painting instruction. Text commands carry the bounding rectangle
/// and alignment rather than a final anchor, because the anchor depends
/// on the measured text width, which only the backend knows;
/// `text_anchor_x` computes the anchor from that width.
#[derive(Debug, Clone, PartialEq)]
pub enum DrawCmd {
    /// Fill `rect` with `color`.
    FillRect { rect: UIRect, color: Color },
    /// Stroke the outline of `rect` with the given line thickness.
    OutlineRect { rect: UIRect, thickness: i32, color: Color },
    /// Draw `text` inside `rect` with the given alignment and font size.
    DrawText { text: String, rect: UIRect, font_size: i32, color: Color, align: TextAlignment },
}

/// The horizontal anchor for a piece of text of measured width
/// `text_width` drawn in a span starting at `x` of width `width`: flush
/// left, centred (rounding down), or flush right.
pub fn text_anchor_x(x: i32, width: i32, text_width: i32, align: TextAlignment) -> (r: i64)
    ensures
        align is Left ==> r == x,
        align is Center ==> r == x + (width - text_width) / 2,
        align is Right ==> r == x + width - text_width,
{
    match align {
        TextAlignment::Left => x as i64,
        TextAlignment::Center => {
            let d: i64 = width as i64 - text_width as i64;
            let half: i64 = if d >= 0 {
                d / 2
            } else {
                let q: i64 = (-d) / 2;
                if q * 2 == -d {
                    -q
                } else {
                    -q - 1
                }
            };
            x as i64 + half
        },
        TextAlignment::Right => x as i64 + width as i64 - text_width as i64,
    }
}

/// The text baseline used by the built-in widgets: vertically centred in
/// a span starting at `y` of height `height`, nudged down by a third of
/// the font size.
pub fn text_baseline_y(y: i32, height: i32, font_size: i32) -> (r: i64)
    ensures
        r == y + half_toward_zero(height as int) + third_toward_zero(font_size as int),
{
    let hh: i64 = if height >= 0 {
        (height as i64) / 2
    } else {
        -((-(height as i64)) / 2)
    };
    let tf: i64 = if font_size >= 0 {
        (font_size as i64) / 3
    } else {
        -((-(font_size as i64)) / 3)
    };
    y as i64 + hh + tf
}

} // verus!
