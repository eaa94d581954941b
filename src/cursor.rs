//! The caret decoration: records where the primary cursor lands on screen.

use vstd::prelude::*;
use crate::render::{column_visible, FormattedGrapheme, Position, TextRenderer};

verus! {

/// Records the screen position of the primary cursor while the text is
/// rendered; drawing the cursor itself happens afterwards, from `cache`.
#[derive(Clone, Copy, PartialEq, Eq, Structural, Debug)]
pub struct Cursor {
    /// The screen position of the cursor, once it has been seen in this pass.
    pub cache: Option<Position>,
    /// The document character index of the primary cursor.
    pub primary_cursor: usize,
}

impl Cursor {
    /// The cursor's next anchor when rendering starts at character `pos`:
    /// the cursor itself, unless it lies before the visible text.
    pub open spec fn anchor_from(self, pos: usize) -> Option<usize> {
        if pos <= self.primary_cursor {
            Some(self.primary_cursor)
        } else {
            None
        }
    }

    /// The cursor after its anchor grapheme `g` was reached on `renderer`:
    /// the cache holds the grapheme's screen cell if its column is visible.
    pub open spec fn after_grapheme(self, renderer: TextRenderer, g: FormattedGrapheme) -> Cursor {
        if column_visible(renderer.col_offset as int, renderer.viewport.width as int, g.visual_pos.col as int) {
            Cursor {
                cache: Some(Position { row: g.visual_pos.row, col: (g.visual_pos.col - renderer.col_offset) as usize }),
                ..self
            }
        } else {
            self
        }
    }

    /// A cursor at character `primary_cursor` whose position is not known yet.
    pub fn new(primary_cursor: usize) -> (r: Cursor)
        ensures
            r.primary_cursor == primary_cursor,
            r.cache.is_none(),
    {
        Cursor { cache: None, primary_cursor }
    }

    pub fn reset_pos(&self, pos: usize) -> (r: Option<usize>)
        ensures
            r == self.anchor_from(pos),
    {
        if pos <= self.primary_cursor {
            Some(self.primary_cursor)
        } else {
            None
        }
    }

    pub fn decorate_grapheme(&mut self, renderer: &TextRenderer, grapheme: &FormattedGrapheme) -> (r: Option<usize>)
        ensures
            *final(self) == old(self).after_grapheme(*renderer, *grapheme),
            r.is_none(),
    {
        if renderer.column_in_bounds(grapheme.visual_pos.col) {
            let position = Position { row: grapheme.visual_pos.row, col: grapheme.visual_pos.col - renderer.col_offset };
            self.cache = Some(position);
        }
        None
    }
}

} // verus!
