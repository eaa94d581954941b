//! The inline-suggestion decoration: ghost text that continues the document
//! at an insertion point, with any further lines drawn as virtual lines below.

use vstd::prelude::*;
use crate::render::{draw_cell, DrawnGrapheme, FormattedGrapheme, LinePos, Style, TextRenderer, Viewport};
use vstd::string::{StrSliceExecFns, StringExecFns};

verus! {

/// The lines of `s`: the pieces between its line breaks, in order. A text
/// without line breaks is one line; a trailing line break ends with an empty one.
pub open spec fn lines_of(s: Seq<char>) -> Seq<Seq<char>>
    decreases s.len(),
{
    if s.len() == 0 {
        seq![Seq::empty()]
    } else {
        let prev = lines_of(s.drop_last());
        if s.last() == '\n' {
            prev.push(Seq::empty())
        } else {
            prev.update(prev.len() - 1, prev.last().push(s.last()))
        }
    }
}

proof fn lemma_lines_of_nonempty(s: Seq<char>)
    ensures
        lines_of(s).len() >= 1,
    decreases s.len(),
{
    if s.len() > 0 {
        lemma_lines_of_nonempty(s.drop_last());
    }
}

/// Splits a suggestion into its lines, to be laid out one by one for
/// [`CopilotDecoration::new`].
pub fn split_lines(text: &str) -> (r: Vec<String>)
    ensures
        r@.map_values(|l: String| l@) == lines_of(text@),
{
    broadcast use vstd::string::axiom_spec_iter;
    let n = text.unicode_len();
    let mut lines: Vec<String> = Vec::new();
    let mut start: usize = 0;
    let mut i: usize = 0;
    proof {
        assert(lines@.map_values(|l: String| l@) =~= Seq::<Seq<char>>::empty());
        assert(text@.take(0) =~= Seq::<char>::empty());
        assert(text@.subrange(0, 0) =~= Seq::<char>::empty());
        assert(Seq::<Seq<char>>::empty().push(Seq::<char>::empty()) =~= lines_of(Seq::<char>::empty()));
    }
    for ch in it: text.chars()
        invariant
            n == text@.len(),
            it.seq() == text@,
            i == it.index(),
            start <= i <= n,
            lines@.map_values(|l: String| l@).push(text@.subrange(start as int, i as int)) == lines_of(text@.take(i as int)),
    {
        let ghost done = lines@.map_values(|l: String| l@);
        proof {
            assert(text@.take(i + 1).drop_last() =~= text@.take(i as int));
            assert(text@.take(i + 1).last() == ch);
            lemma_lines_of_nonempty(text@.take(i as int));
        }
        if ch == '\n' {
            let piece = text.substring_char(start, i);
            lines.push(String::from_str(piece));
            proof {
                assert(lines@.map_values(|l: String| l@) =~= done.push(text@.subrange(start as int, i as int)));
                assert(text@.subrange(i + 1, i + 1) =~= Seq::<char>::empty());
            }
            start = i + 1;
        } else {
            proof {
                assert(text@.subrange(start as int, i + 1) =~= text@.subrange(start as int, i as int).push(ch));
                assert(done.push(text@.subrange(start as int, i + 1)) =~= done.push(text@.subrange(start as int, i as int)).update(done.len() as int, text@.subrange(start as int, i as int).push(ch)));
            }
        }
        i += 1;
    }
    let ghost done = lines@.map_values(|l: String| l@);
    let last = text.substring_char(start, i);
    lines.push(String::from_str(last));
    proof {
        assert(text@.take(i as int) =~= text@);
        assert(lines@.map_values(|l: String| l@) =~= done.push(text@.subrange(start as int, i as int)));
    }
    lines
}

/// What drawing the graphemes `gs` that start at or after character
/// `min_char`, each at row `row_base` plus its own row, leaves on a surface
/// that has `drawn`.
pub open spec fn line_cells(
    drawn: Seq<DrawnGrapheme>,
    gs: Seq<FormattedGrapheme>,
    min_char: int,
    row_base: int,
    style: Style,
    viewport: Viewport,
) -> Seq<DrawnGrapheme>
    decreases gs.len(),
{
    if gs.len() == 0 {
        drawn
    } else {
        let prev = line_cells(drawn, gs.drop_last(), min_char, row_base, style, viewport);
        let g = gs.last();
        if g.char_idx >= min_char {
            draw_cell(prev, viewport, g.raw, style, row_base + g.visual_pos.row, g.visual_pos.col as int)
        } else {
            prev
        }
    }
}

/// What drawing lines `1..=n` of `lines`, line `i` at row `row_base + i - 1`,
/// leaves on a surface that has `drawn`.
pub open spec fn trailing_cells(
    drawn: Seq<DrawnGrapheme>,
    lines: Seq<Vec<FormattedGrapheme>>,
    n: int,
    row_base: int,
    style: Style,
    viewport: Viewport,
) -> Seq<DrawnGrapheme>
    decreases n,
{
    if n <= 0 {
        drawn
    } else {
        let prev = trailing_cells(drawn, lines, n - 1, row_base, style, viewport);
        line_cells(prev, lines[n]@, 0, row_base + n - 1, style, viewport)
    }
}

/// Nothing is drawn for a line whose first row is already below the viewport.
proof fn lemma_line_cells_below_viewport(
    drawn: Seq<DrawnGrapheme>,
    gs: Seq<FormattedGrapheme>,
    min_char: int,
    row_base: int,
    style: Style,
    viewport: Viewport,
)
    requires
        row_base >= viewport.height,
    ensures
        line_cells(drawn, gs, min_char, row_base, style, viewport) == drawn,
    decreases gs.len(),
{
    if gs.len() > 0 {
        lemma_line_cells_below_viewport(drawn, gs.drop_last(), min_char, row_base, style, viewport);
    }
}

/// A suggested completion shown as ghost text at a document position.
///
/// `lines` is the suggestion split at line breaks, each line laid out on its
/// own by the formatter, with character indices counted from the line's start.
pub struct CopilotDecoration {
    pub style: Style,
    pub lines: Vec<Vec<FormattedGrapheme>>,
    /// The document row of the insertion point.
    pub row: usize,
    /// The column of the insertion point within its row.
    pub col: usize,
}

impl CopilotDecoration {
    /// How many lines follow the first one.
    pub open spec fn trailing_lines(self) -> int {
        if self.lines@.len() == 0 {
            0
        } else {
            self.lines@.len() - 1
        }
    }

    /// The number of virtual rows taken below the visual line `pos`: one for
    /// each line after the first (at most `u16::MAX`), on the suggestion's row only.
    pub open spec fn virt_rows(self, pos: LinePos) -> int {
        if pos.doc_line != self.row {
            0
        } else if self.trailing_lines() > u16::MAX {
            u16::MAX as int
        } else {
            self.trailing_lines()
        }
    }

    /// The surface after the line hook on `pos`: on the suggestion's row, its
    /// first line from the insertion column on, drawn on the visual line.
    pub open spec fn line_effect(self, drawn: Seq<DrawnGrapheme>, pos: LinePos, viewport: Viewport) -> Seq<DrawnGrapheme> {
        if pos.doc_line == self.row && self.lines@.len() > 0 {
            line_cells(drawn, self.lines@[0]@, self.col as int, pos.visual_line as int, self.style, viewport)
        } else {
            drawn
        }
    }

    /// The surface after the virtual-line hook on `pos` at offset `virt_off`:
    /// on the suggestion's row, line `i` of the suggestion (for `i >= 1`) drawn
    /// at row `visual_line + virt_off + i - 1`.
    pub open spec fn virt_effect(self, drawn: Seq<DrawnGrapheme>, pos: LinePos, virt_off: int, viewport: Viewport) -> Seq<DrawnGrapheme> {
        if pos.doc_line == self.row {
            trailing_cells(drawn, self.lines@, self.trailing_lines(), pos.visual_line + virt_off, self.style, viewport)
        } else {
            drawn
        }
    }

    /// A suggestion whose laid-out `lines` are inserted at document `row`, `col`.
    pub fn new(style: Style, lines: Vec<Vec<FormattedGrapheme>>, row: usize, col: usize) -> (r: CopilotDecoration)
        ensures
            r.style == style,
            r.lines == lines,
            r.row == row,
            r.col == col,
    {
        CopilotDecoration { style, lines, row, col }
    }

    pub fn decorate_line(&self, renderer: &mut TextRenderer, pos: LinePos)
        ensures
            final(renderer).viewport == old(renderer).viewport,
            final(renderer).col_offset == old(renderer).col_offset,
            final(renderer).drawn@ == self.line_effect(old(renderer).drawn@, pos, old(renderer).viewport),
    {
        if self.row != pos.doc_line || self.lines.len() == 0 {
            return;
        }
        draw_line(renderer, &self.lines[0], self.col, pos.visual_line as usize, self.style);
    }

    pub fn render_virt_lines(&self, renderer: &mut TextRenderer, pos: LinePos, virt_off: u16) -> (r: u16)
        ensures
            r == self.virt_rows(pos),
            final(renderer).viewport == old(renderer).viewport,
            final(renderer).col_offset == old(renderer).col_offset,
            final(renderer).drawn@ == self.virt_effect(old(renderer).drawn@, pos, virt_off as int, old(renderer).viewport),
    {
        if pos.doc_line != self.row {
            return 0;
        }
        let n_lines: usize = if self.lines.len() == 0 { 0 } else { self.lines.len() - 1 };
        let row_base: usize = pos.visual_line as usize + virt_off as usize;
        let mut i: usize = 0;
        while i < n_lines
            invariant
                i <= n_lines,
                n_lines == self.trailing_lines(),
                row_base == pos.visual_line + virt_off,
                pos.doc_line == self.row,
                renderer.viewport == old(renderer).viewport,
                renderer.col_offset == old(renderer).col_offset,
                renderer.drawn@ == trailing_cells(old(renderer).drawn@, self.lines@, i as int, row_base as int, self.style, renderer.viewport),
            decreases n_lines - i,
        {
            match row_base.checked_add(i) {
                Some(line_row) => {
                    draw_line(renderer, &self.lines[i + 1], 0, line_row, self.style);
                },
                None => {
                    proof {
                        lemma_line_cells_below_viewport(renderer.drawn@, self.lines@[i + 1]@, 0, row_base + i, self.style, renderer.viewport);
                    }
                },
            }
            i += 1;
        }
        if n_lines > u16::MAX as usize {
            u16::MAX
        } else {
            n_lines as u16
        }
    }
}

/// Draws the graphemes of `gs` that start at or after character `min_char`,
/// each at row `row_base` plus its own row.
fn draw_line(renderer: &mut TextRenderer, gs: &Vec<FormattedGrapheme>, min_char: usize, row_base: usize, style: Style)
    ensures
        final(renderer).viewport == old(renderer).viewport,
        final(renderer).col_offset == old(renderer).col_offset,
        final(renderer).drawn@ == line_cells(old(renderer).drawn@, gs@, min_char as int, row_base as int, style, old(renderer).viewport),
{
    let mut j: usize = 0;
    while j < gs.len()
        invariant
            j <= gs.len(),
            renderer.viewport == old(renderer).viewport,
            renderer.col_offset == old(renderer).col_offset,
            renderer.drawn@ == line_cells(old(renderer).drawn@, gs@.take(j as int), min_char as int, row_base as int, style, renderer.viewport),
        decreases gs.len() - j,
    {
        let g = &gs[j];
        proof {
            assert(gs@.take(j + 1).drop_last() =~= gs@.take(j as int));
            assert(gs@.take(j + 1).last() == *g);
        }
        if g.char_idx >= min_char {
            match row_base.checked_add(g.visual_pos.row) {
                Some(row) => {
                    renderer.draw_decoration_grapheme(&g.raw, style, row, g.visual_pos.col);
                },
                None => {},
            }
        }
        j += 1;
    }
    proof {
        assert(gs@.take(gs.len() as int) =~= gs@);
    }
}

} // verus!
