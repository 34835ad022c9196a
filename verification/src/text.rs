//! Text layout: a builder for a line of screen text and its alignment
//! arithmetic.  Rasterisation is the renderer's business; the layout (where
//! an aligned line starts, given its measured width) is computed here.

use vstd::prelude::*;

use crate::fixed::{fix_div, fix_from_int, fix_sub, fdiv, from_int, fsub, SCALE};
use crate::vec2::Vec2;

verus! {

/// Horizontal alignment of a text line.
#[derive(Clone, Copy, Debug, PartialEq, Eq, Structural)]
pub enum TextAlignment {
    Left,
    Center,
    Right,
}

impl Default for TextAlignment {
    fn default() -> (r: TextAlignment)
        ensures
            r == TextAlignment::Left,
    {
        TextAlignment::Left
    }
}

/// A line of text with its position, color and alignment.
#[derive(Debug)]
pub struct Text {
    pub text: String,
    pub at: Vec2,
    pub color: i32,
    pub alignment: TextAlignment,
}

impl Text {
    pub fn new(text: String) -> (r: Text)
        ensures
            r.text == text,
            r.at == (Vec2 { x: 0i64, y: 0i64 }),
            r.color == 12i32,
            r.alignment == TextAlignment::Left,
    {
        Text { text, at: Vec2 { x: 0, y: 0 }, color: 12, alignment: TextAlignment::Left }
    }

    pub fn at(self, at: Vec2) -> (r: Text)
        ensures
            r.text == self.text,
            r.at == at,
            r.color == self.color,
            r.alignment == self.alignment,
    {
        Text { at, ..self }
    }

    pub fn color(self, color: i32) -> (r: Text)
        ensures
            r.text == self.text,
            r.at == self.at,
            r.color == color,
            r.alignment == self.alignment,
    {
        Text { color, ..self }
    }

    pub fn align_center(self) -> (r: Text)
        ensures
            r.text == self.text,
            r.at == self.at,
            r.color == self.color,
            r.alignment == TextAlignment::Center,
    {
        Text { alignment: TextAlignment::Center, ..self }
    }

    pub fn align_right(self) -> (r: Text)
        ensures
            r.text == self.text,
            r.at == self.at,
            r.color == self.color,
            r.alignment == TextAlignment::Right,
    {
        Text { alignment: TextAlignment::Right, ..self }
    }

    /// Where the line starts once its measured pixel width is known:
    /// unchanged when left-aligned, pulled back by the full width when
    /// right-aligned, and centered between its position and the width
    /// otherwise.
    pub fn resolved_at(&self, width: i32) -> (r: Vec2)
        ensures
            r == (match self.alignment {
                TextAlignment::Left => self.at,
                TextAlignment::Center => Vec2 {
                    x: fix_div(
                        fix_sub(self.at.x as int, fix_from_int(width as int)),
                        2 * SCALE as int,
                    ) as i64,
                    y: self.at.y,
                },
                TextAlignment::Right => Vec2 {
                    x: fix_sub(self.at.x as int, fix_from_int(width as int)) as i64,
                    y: self.at.y,
                },
            }),
    {
        match self.alignment {
            TextAlignment::Left => self.at,
            TextAlignment::Center => Vec2 {
                x: fdiv(fsub(self.at.x, from_int(width as i64)), 2 * SCALE),
                y: self.at.y,
            },
            TextAlignment::Right => Vec2 { x: fsub(self.at.x, from_int(width as i64)), y: self.at.y },
        }
    }
}

} // verus!
