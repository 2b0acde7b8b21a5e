//! What the renderer draws on top of the game: boxes and text.
use crate::surface::{Color, Surface, SurfaceBlendOps};
use crate::util::rect::Rect;
use vstd::prelude::*;
use vstd::string::StrSliceExecFns;

verus! {

/// The font a text is drawn in.
#[derive(Clone, Copy, PartialEq, Eq, Structural, Debug)]
pub enum TextFont {
    Regular,
    Small,
}

/// Text drawing bits.
pub const TEXT_DRAW_SHADOW: u32 = 0x01;

/// Text placement bits.
pub const TEXT_ALIGN_H_START: u32 = 0x01;
pub const TEXT_ALIGN_H_CENTER: u32 = 0x02;
pub const TEXT_ALIGN_H_END: u32 = 0x04;
pub const TEXT_ALIGN_V_START: u32 = 0x08;
pub const TEXT_ALIGN_V_CENTER: u32 = 0x10;
pub const TEXT_ALIGN_V_END: u32 = 0x20;
pub const TEXT_CLAMP_TO_TARGET: u32 = 0x40;

/// The width of the game screen in pixels.
pub const SCREEN_WIDTH: u32 = 256;

/// The height of the game screen in pixels.
pub const SCREEN_HEIGHT: u32 = 224;

/// A filled box to draw.
pub struct BoxRenderable {
    pub rect: Rect,
    pub color: Color,
    pub blend_op: SurfaceBlendOps,
}

impl BoxRenderable {
    /// A box between two corners.
    pub fn new(x1: i32, y1: i32, x2: i32, y2: i32, color: Color, blend_op: SurfaceBlendOps) -> (b: BoxRenderable)
        ensures
            b.rect == (Rect { x1, y1, x2, y2 }),
            b.color == color,
            b.blend_op == blend_op,
    {
        BoxRenderable { rect: Rect::new(x1, y1, x2, y2), color, blend_op }
    }
}

/// A text to draw, of which the first characters are shown; the drawn text is kept until what
/// is shown changes.
pub struct TextRenderable {
    pub text: String,
    pub char_count: usize,
    pub char_count_show: usize,
    pub color: Color,
    pub flags: u32,
    pub font: TextFont,
    pub wrap_width: i32,
    pub surface: Option<Surface>,
}

impl TextRenderable {
    /// A text with all of its characters shown and nothing drawn yet.
    pub fn new(text: String, font: TextFont, color: Color, flags: u32, wrap_width: i32) -> (t: TextRenderable)
        ensures
            t.text@ == text@,
            t.char_count == text@.len(),
            t.char_count_show == text@.len(),
            t.color == color,
            t.flags == flags,
            t.font == font,
            t.wrap_width == wrap_width,
            t.surface is None,
    {
        let char_count = text.as_str().unicode_len();
        TextRenderable {
            text,
            char_count,
            char_count_show: char_count,
            color,
            flags,
            font,
            wrap_width,
            surface: None,
        }
    }

    /// Shows the first `char_count` characters, at most all of them; a change drops what was
    /// drawn.
    pub fn set_char_count_to_show(&mut self, char_count: usize)
        ensures
            final(self).char_count_show == (if old(self).char_count < char_count { old(self).char_count } else { char_count }),
            final(self).surface == (if old(self).char_count_show != char_count { None } else { old(self).surface }),
            final(self).text@ == old(self).text@,
            final(self).char_count == old(self).char_count,
            final(self).color == old(self).color,
            final(self).flags == old(self).flags,
            final(self).font == old(self).font,
            final(self).wrap_width == old(self).wrap_width,
    {
        if self.char_count_show != char_count {
            self.surface = None;
        }
        self.char_count_show = if self.char_count < char_count { self.char_count } else { char_count };
    }

    /// The number of characters of the text.
    pub fn get_char_count(&self) -> (n: usize)
        ensures
            n == self.char_count,
    {
        self.char_count
    }
}

} // verus!
