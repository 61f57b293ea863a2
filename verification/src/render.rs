//! Rendering: the glyphs of one frame, and where and how each is drawn.

use vstd::prelude::*;
use crate::letters::{capital, capitalize};

verus! {

/// A colour, eight bits per channel.
#[derive(Clone, Copy, Debug, PartialEq, Eq, Structural)]
pub struct Rgba {
    pub r: u8,
    pub g: u8,
    pub b: u8,
    pub a: u8,
}

/// How the text is laid out and coloured, in display units.
#[derive(Clone, Copy, Debug, PartialEq, Eq, Structural)]
pub struct Style {
    /// The colour the surface is cleared to.
    pub background: Rgba,
    /// The colour of the text.
    pub foreground: Rgba,
    /// The font size.
    pub font_size: u16,
    /// The horizontal position of the first character.
    pub margin: u32,
    /// The horizontal distance from one character to the next.
    pub pitch: u32,
    /// The distance of the baseline from the top.
    pub baseline: u32,
}

/// One character of a frame as it is to be drawn.
#[derive(Clone, Copy, Debug, PartialEq, Eq, Structural)]
pub struct Glyph {
    /// The character.
    pub ch: char,
    /// Its horizontal position.
    pub x: u128,
    /// The position of its baseline.
    pub y: u32,
    /// The font size.
    pub font_size: u16,
    /// The colour.
    pub color: Rgba,
}

/// White text of size 30 on black, 20 units apart, starting 20 units from
/// the left on a baseline 20 units from the top.
pub open spec fn standard_style() -> Style {
    Style {
        background: Rgba { r: 0, g: 0, b: 0, a: 255 },
        foreground: Rgba { r: 255, g: 255, b: 255, a: 255 },
        font_size: 30,
        margin: 20,
        pitch: 20,
        baseline: 20,
    }
}

impl Default for Style {
    fn default() -> (style: Style)
        ensures
            style == standard_style(),
    {
        Style {
            background: Rgba { r: 0, g: 0, b: 0, a: 255 },
            foreground: Rgba { r: 255, g: 255, b: 255, a: 255 },
            font_size: 30,
            margin: 20,
            pitch: 20,
            baseline: 20,
        }
    }
}

/// The horizontal position of the character at index `i`.
pub open spec fn column_x(style: Style, i: int) -> int {
    style.margin + style.pitch * i
}

/// The character shown at index `i` while the cursor is at `cursor`: the
/// active one in its capital form, every other one as it is.
pub open spec fn shown_char(text: Seq<char>, cursor: int, i: int) -> char {
    if i == cursor {
        capital(text[i])
    } else {
        text[i]
    }
}

/// The glyph at index `i` of a frame.
pub open spec fn glyph_at(text: Seq<char>, cursor: int, style: Style, i: int) -> Glyph {
    Glyph {
        ch: shown_char(text, cursor, i),
        x: column_x(style, i) as u128,
        y: style.baseline,
        font_size: style.font_size,
        color: style.foreground,
    }
}

/// The glyphs of a frame, left to right: one for each character of the
/// text.
pub open spec fn rendered(text: Seq<char>, cursor: int, style: Style) -> Seq<Glyph> {
    Seq::new(text.len(), |i: int| glyph_at(text, cursor, style, i))
}

/// A frame has one glyph for each character; the one under the cursor is
/// the capital form of its character, and all others are the characters of
/// the text unchanged.
pub proof fn lemma_only_cursor_is_capital(text: Seq<char>, cursor: int, style: Style)
    requires
        0 <= cursor < text.len(),
    ensures
        rendered(text, cursor, style).len() == text.len(),
        rendered(text, cursor, style)[cursor].ch == capital(text[cursor]),
        forall|i: int|
            0 <= i < text.len() && i != cursor ==> (#[trigger] rendered(text, cursor, style)[i]).ch
                == text[i],
{
}

/// The position of every character of a text that fits in memory fits in a
/// glyph's coordinate.
pub proof fn lemma_column_fits(style: Style, i: int)
    requires
        0 <= i <= usize::MAX,
    ensures
        0 <= column_x(style, i) <= u128::MAX,
{
    assert(0 <= style.pitch * i <= 0xffff_ffff * 0xffff_ffff_ffff_ffff) by (nonlinear_arith)
        requires
            0 <= style.pitch <= 0xffff_ffff,
            0 <= i <= 0xffff_ffff_ffff_ffff,
    ;
}

/// Renders the text with the character at `cursor` in its capital form.
/// Where `cursor` lies outside the text, no character is active.
pub fn render(text: &Vec<char>, cursor: usize, style: &Style) -> (glyphs: Vec<Glyph>)
    ensures
        glyphs@ == rendered(text@, cursor as int, *style),
        glyphs@.len() == text@.len(),
        forall|i: int|
            0 <= i < text@.len() ==> (#[trigger] glyphs@[i]).ch == shown_char(
                text@,
                cursor as int,
                i,
            ),
{
    let mut glyphs: Vec<Glyph> = Vec::new();
    let mut i: usize = 0;
    while i < text.len()
        invariant
            i <= text.len(),
            glyphs@ == Seq::new(i as nat, |k: int| glyph_at(text@, cursor as int, *style, k)),
        decreases text.len() - i,
    {
        let c = text[i];
        let ch = if i == cursor {
            capitalize(c)
        } else {
            c
        };
        proof {
            lemma_column_fits(*style, i as int);
        }
        let x: u128 = style.margin as u128 + style.pitch as u128 * i as u128;
        let glyph = Glyph {
            ch,
            x,
            y: style.baseline,
            font_size: style.font_size,
            color: style.foreground,
        };
        assert(glyph == glyph_at(text@, cursor as int, *style, i as int));
        glyphs.push(glyph);
        i += 1;
    }
    glyphs
}

} // verus!
