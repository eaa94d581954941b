//! The data a render pass hands to decorations: positioned graphemes, the
//! line being drawn, and the surface that decoration graphemes are drawn on.

use vstd::prelude::*;

verus! {

/// A position on screen or in laid-out text.
#[derive(Clone, Copy, PartialEq, Eq, Structural, Debug)]
pub struct Position {
    pub row: usize,
    pub col: usize,
}

/// The display style of a decoration grapheme.
#[derive(Clone, Copy, PartialEq, Eq, Structural, Debug)]
pub struct Style {
    /// Foreground colour as packed RGB, if set.
    pub fg: Option<u32>,
    /// Background colour as packed RGB, if set.
    pub bg: Option<u32>,
}

/// The visible area of the text view.
#[derive(Clone, Copy, PartialEq, Eq, Structural, Debug)]
pub struct Viewport {
    pub width: u16,
    pub height: u16,
}

/// The visual line that is being rendered.
#[derive(Clone, Copy, PartialEq, Eq, Structural, Debug)]
pub struct LinePos {
    /// Whether this is the first visual line of its document line.
    pub first_visual_line: bool,
    /// The document line this visual line belongs to.
    pub doc_line: usize,
    /// The row of this visual line within the viewport.
    pub visual_line: u16,
    /// The first document character shown on this visual line.
    pub start_char_idx: usize,
}

/// One grapheme as the formatter laid it out.
#[derive(Clone, PartialEq, Eq, Debug)]
pub struct FormattedGrapheme {
    /// The character index in the source text where the grapheme starts.
    pub char_idx: usize,
    /// Where the formatter placed the grapheme.
    pub visual_pos: Position,
    /// The text that is drawn for it.
    pub raw: String,
}

/// A grapheme drawn by a decoration, at a cell inside the viewport.
#[derive(Clone, PartialEq, Eq, Debug)]
pub struct DrawnGrapheme {
    pub text: String,
    pub style: Style,
    pub row: u16,
    pub col: u16,
}

/// The surface that decorations draw on.
///
/// It records, in order, every decoration grapheme that landed inside the
/// viewport; graphemes aimed outside of it are dropped.
pub struct TextRenderer {
    pub viewport: Viewport,
    /// How many columns the view is scrolled to the right.
    pub col_offset: usize,
    pub drawn: Vec<DrawnGrapheme>,
}

/// Whether a visual column lies in the horizontally visible part of the text.
pub open spec fn column_visible(col_offset: int, width: int, col: int) -> bool {
    col_offset <= col && col < col_offset + width
}

/// Whether the cell `(row, col)` lies inside the viewport.
pub open spec fn in_viewport(viewport: Viewport, row: int, col: int) -> bool {
    0 <= row && row < viewport.height && 0 <= col && col < viewport.width
}

/// What drawing `text` at `(row, col)` leaves on a surface that has `drawn`.
pub open spec fn draw_cell(drawn: Seq<DrawnGrapheme>, viewport: Viewport, text: String, style: Style, row: int, col: int) -> Seq<DrawnGrapheme> {
    if in_viewport(viewport, row, col) {
        drawn.push(DrawnGrapheme { text, style, row: row as u16, col: col as u16 })
    } else {
        drawn
    }
}

impl TextRenderer {
    /// A surface for `viewport`, scrolled right by `col_offset`, with nothing drawn.
    pub fn new(viewport: Viewport, col_offset: usize) -> (r: TextRenderer)
        ensures
            r.viewport == viewport,
            r.col_offset == col_offset,
            r.drawn@ == Seq::<DrawnGrapheme>::empty(),
    {
        TextRenderer { viewport, col_offset, drawn: Vec::new() }
    }

    /// Whether visual column `col` is inside the horizontally visible range.
    pub fn column_in_bounds(&self, col: usize) -> (r: bool)
        ensures
            r == column_visible(self.col_offset as int, self.viewport.width as int, col as int),
    {
        self.col_offset <= col && col - self.col_offset < self.viewport.width as usize
    }

    /// Draws `grapheme` at screen cell `(row, col)`; returns whether the cell
    /// was inside the viewport (only then is anything drawn).
    pub fn draw_decoration_grapheme(&mut self, grapheme: &String, style: Style, row: usize, col: usize) -> (r: bool)
        ensures
            r == in_viewport(old(self).viewport, row as int, col as int),
            final(self).viewport == old(self).viewport,
            final(self).col_offset == old(self).col_offset,
            final(self).drawn@ == draw_cell(old(self).drawn@, old(self).viewport, *grapheme, style, row as int, col as int),
    {
        if row < self.viewport.height as usize && col < self.viewport.width as usize {
            let text = grapheme.clone();
            self.drawn.push(DrawnGrapheme { text, style, row: row as u16, col: col as u16 });
            true
        } else {
            false
        }
    }
}

} // verus!
