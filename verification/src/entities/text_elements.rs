//! The text display model.
//!
//! A `TextDisplayModel` holds one `TextElement` for each named display
//! element the simulation knows about. An element carries visibility, a
//! position, an alignment, a paint order and a stack of `TextLine`s; a line
//! carries its own layout data, a font descriptor and the string to paint.
//!
//! The simulation mutates only the `text` of the score and mode lines and the
//! `visible` flag of the pause and game-over elements; every structural field
//! is fixed at construction. The spec functions `same_but_text` and
//! `same_but_visible` state exactly that frame.

use vstd::prelude::*;
use crate::data_structs::Position2D;

verus! {

/// A font family known to the renderer.
#[derive(Clone, Copy, Debug, PartialEq, Eq, Structural)]
pub enum FontName {
    ArcadeInterlaced,
    ArcadeNormal,
    ArcadeRounded,
}

/// How an element or a line is anchored horizontally.
#[derive(Clone, Copy, Debug, PartialEq, Eq, Structural)]
pub enum TextAlignment {
    Start,
    Center,
    End,
}

/// An RGBA color, one byte per channel.
#[derive(Clone, Copy, Debug, PartialEq, Eq, Structural)]
pub struct Color {
    pub r: u8,
    pub g: u8,
    pub b: u8,
    pub a: u8,
}

/// A font family, size and color for one line of text.
#[derive(Clone, Copy, Debug, PartialEq, Eq, Structural)]
pub struct FontDefinition {
    pub font_name: FontName,
    pub font_size: u16,
    pub color: Color,
}

/// One line of text within an element.
#[derive(Debug)]
pub struct TextLine {
    pub vertical_order: u32,
    pub position: Position2D,
    pub alignment: TextAlignment,
    pub font: FontDefinition,
    pub text: String,
}

/// A named display element: a stack of text lines with shared layout data.
#[derive(Debug)]
pub struct TextElement {
    pub name: String,
    pub visible: bool,
    pub position: Position2D,
    pub alignment: TextAlignment,
    pub draw_order: u32,
    pub is_overlay: bool,
    pub lines: Vec<TextLine>,
}

/// Every display element the simulation updates, as a dedicated field.
#[derive(Debug)]
pub struct TextDisplayModel {
    pub score_element: TextElement,
    pub mode_element: TextElement,
    pub pause_element: TextElement,
    pub game_over_element: TextElement,
}

impl Color {
    pub fn new(r: u8, g: u8, b: u8, a: u8) -> (c: Color)
        ensures
            c.r == r,
            c.g == g,
            c.b == b,
            c.a == a,
    {
        Color { r, g, b, a }
    }

    /// Opaque white.
    pub fn white() -> (c: Color)
        ensures
            c == (Color { r: 255, g: 255, b: 255, a: 255 }),
    {
        Color { r: 255, g: 255, b: 255, a: 255 }
    }
}

impl FontDefinition {
    pub fn new(font_name: FontName, font_size: u16, color: Color) -> (f: FontDefinition)
        ensures
            f.font_name == font_name,
            f.font_size == font_size,
            f.color == color,
    {
        FontDefinition { font_name, font_size, color }
    }
}

impl TextLine {
    pub fn new(
        vertical_order: u32,
        position: Position2D,
        alignment: TextAlignment,
        font: FontDefinition,
        text: String,
    ) -> (l: TextLine)
        ensures
            l.vertical_order == vertical_order,
            l.position == position,
            l.alignment == alignment,
            l.font == font,
            l.text == text,
    {
        TextLine { vertical_order, position, alignment, font, text }
    }
}

impl TextElement {
    /// A fresh element: visible, with no lines yet.
    pub fn new(
        name: String,
        draw_order: u32,
        position: Position2D,
        alignment: TextAlignment,
        is_overlay: bool,
    ) -> (e: TextElement)
        ensures
            e.name == name,
            e.visible == true,
            e.position == position,
            e.alignment == alignment,
            e.draw_order == draw_order,
            e.is_overlay == is_overlay,
            e.lines@ == Seq::<TextLine>::empty(),
    {
        TextElement {
            name,
            visible: true,
            position,
            alignment,
            draw_order,
            is_overlay,
            lines: Vec::new(),
        }
    }
}

/// The two lines carry the same layout data; only their text may differ.
pub open spec fn line_layout_eq(a: TextLine, b: TextLine) -> bool {
    &&& b.vertical_order == a.vertical_order
    &&& b.position == a.position
    &&& b.alignment == a.alignment
    &&& b.font == a.font
}

/// The two elements are identical except that the text of their lines may
/// differ.
pub open spec fn same_but_text(a: TextElement, b: TextElement) -> bool {
    &&& b.name == a.name
    &&& b.visible == a.visible
    &&& b.position == a.position
    &&& b.alignment == a.alignment
    &&& b.draw_order == a.draw_order
    &&& b.is_overlay == a.is_overlay
    &&& b.lines@.len() == a.lines@.len()
    &&& forall|i: int|
        0 <= i < a.lines@.len() ==> line_layout_eq(#[trigger] a.lines@[i], b.lines@[i])
}

/// The two elements are identical except for their `visible` flag.
pub open spec fn same_but_visible(a: TextElement, b: TextElement) -> bool {
    &&& b.name == a.name
    &&& b.position == a.position
    &&& b.alignment == a.alignment
    &&& b.draw_order == a.draw_order
    &&& b.is_overlay == a.is_overlay
    &&& b.lines@ == a.lines@
}

/// The shape the simulation relies on: each element holds its fixed number of
/// lines.
pub open spec fn display_wf(d: TextDisplayModel) -> bool {
    &&& d.score_element.lines@.len() == 1
    &&& d.mode_element.lines@.len() == 1
    &&& d.pause_element.lines@.len() == 3
    &&& d.game_over_element.lines@.len() == 1
}

/// The text currently painted on the score line.
pub open spec fn score_text(d: TextDisplayModel) -> Seq<char> {
    d.score_element.lines@[0].text@
}

/// The text currently painted on the mode line.
pub open spec fn mode_line_text(d: TextDisplayModel) -> Seq<char> {
    d.mode_element.lines@[0].text@
}

} // verus!
