//! The decorations a render pass can carry, and the hooks they answer to.

use vstd::prelude::*;
use crate::cursor::Cursor;
use crate::render::{DrawnGrapheme, FormattedGrapheme, LinePos, TextRenderer, Viewport};
use crate::suggestion::CopilotDecoration;

verus! {

/// Whether `anchor` asks for nothing before character `pos`: it is inactive
/// (`None`) or at `pos` or later.
pub open spec fn anchor_at_or_after(anchor: Option<usize>, pos: int) -> bool {
    match anchor {
        Some(a) => a >= pos,
        None => true,
    }
}

/// Whether `anchor` is inactive or strictly after character `pos`.
pub open spec fn anchor_after(anchor: Option<usize>, pos: int) -> bool {
    match anchor {
        Some(a) => a > pos,
        None => true,
    }
}

/// An on-screen element anchored to the rendered text.
///
/// Each decoration is told about every visual line before its text is drawn
/// and after it, and about the grapheme at its anchor: the next document
/// character at which it wants to act, or `None` once it wants nothing more
/// in this pass.
pub enum Decoration {
    Cursor(Cursor),
    Copilot(CopilotDecoration),
}

impl Decoration {
    /// The anchor this decoration wants when the visible text starts at `pos`.
    pub open spec fn reset_anchor(self, pos: usize) -> Option<usize> {
        match self {
            Decoration::Cursor(c) => c.anchor_from(pos),
            Decoration::Copilot(_) => None,
        }
    }

    /// The anchor this decoration wants after its anchor was concealed, with
    /// the concealed text ending at `conceal_end`.
    pub open spec fn skip_anchor(self, conceal_end: usize) -> Option<usize> {
        self.reset_anchor(conceal_end)
    }

    /// The decoration after the grapheme hook ran on `g`.
    pub open spec fn after_grapheme(self, renderer: TextRenderer, g: FormattedGrapheme) -> Decoration {
        match self {
            Decoration::Cursor(c) => Decoration::Cursor(c.after_grapheme(renderer, g)),
            Decoration::Copilot(_) => self,
        }
    }

    /// The surface after the line hook ran on `pos`, given what it held before.
    pub open spec fn line_effect(self, drawn: Seq<DrawnGrapheme>, pos: LinePos, viewport: Viewport) -> Seq<DrawnGrapheme> {
        match self {
            Decoration::Cursor(_) => drawn,
            Decoration::Copilot(s) => s.line_effect(drawn, pos, viewport),
        }
    }

    /// The number of virtual rows the decoration takes below the visual line `pos`.
    pub open spec fn virt_rows(self, pos: LinePos) -> int {
        match self {
            Decoration::Cursor(_) => 0,
            Decoration::Copilot(s) => s.virt_rows(pos),
        }
    }

    /// The surface after the virtual-line hook ran on `pos` at `virt_off`.
    pub open spec fn virt_effect(self, drawn: Seq<DrawnGrapheme>, pos: LinePos, virt_off: int, viewport: Viewport) -> Seq<DrawnGrapheme> {
        match self {
            Decoration::Cursor(_) => drawn,
            Decoration::Copilot(s) => s.virt_effect(drawn, pos, virt_off, viewport),
        }
    }

    /// The decoration and its anchor once grapheme `g` has been dealt with:
    /// an anchor before `g` is first skipped to `g`; if the anchor then is
    /// `g`, the grapheme hook runs and the decoration goes inactive.
    pub open spec fn settle(self, anchor: Option<usize>, renderer: TextRenderer, g: FormattedGrapheme) -> (Decoration, Option<usize>) {
        let c = g.char_idx;
        let a = match anchor {
            Some(a) => if a < c { self.skip_anchor(c) } else { anchor },
            None => None,
        };
        if a == Some(c) {
            (self.after_grapheme(renderer, g), None)
        } else {
            (self, a)
        }
    }

    pub fn reset_pos(&self, pos: usize) -> (r: Option<usize>)
        ensures
            r == self.reset_anchor(pos),
            anchor_at_or_after(r, pos as int),
    {
        match self {
            Decoration::Cursor(c) => c.reset_pos(pos),
            Decoration::Copilot(_) => None,
        }
    }

    pub fn skip_concealed_anchor(&self, conceal_end_char_idx: usize) -> (r: Option<usize>)
        ensures
            r == self.skip_anchor(conceal_end_char_idx),
            anchor_at_or_after(r, conceal_end_char_idx as int),
    {
        self.reset_pos(conceal_end_char_idx)
    }

    pub fn decorate_grapheme(&mut self, renderer: &mut TextRenderer, grapheme: &FormattedGrapheme) -> (r: Option<usize>)
        ensures
            *final(self) == old(self).after_grapheme(*old(renderer), *grapheme),
            *final(renderer) == *old(renderer),
            r.is_none(),
    {
        match self {
            Decoration::Cursor(c) => c.decorate_grapheme(renderer, grapheme),
            Decoration::Copilot(_) => None,
        }
    }

    pub fn decorate_line(&self, renderer: &mut TextRenderer, pos: LinePos)
        ensures
            final(renderer).viewport == old(renderer).viewport,
            final(renderer).col_offset == old(renderer).col_offset,
            final(renderer).drawn@ == self.line_effect(old(renderer).drawn@, pos, old(renderer).viewport),
    {
        match self {
            Decoration::Cursor(_) => {},
            Decoration::Copilot(s) => s.decorate_line(renderer, pos),
        }
    }

    pub fn render_virt_lines(&self, renderer: &mut TextRenderer, pos: LinePos, virt_off: u16) -> (r: u16)
        ensures
            r == self.virt_rows(pos),
            final(renderer).viewport == old(renderer).viewport,
            final(renderer).col_offset == old(renderer).col_offset,
            final(renderer).drawn@ == self.virt_effect(old(renderer).drawn@, pos, virt_off as int, old(renderer).viewport),
    {
        match self {
            Decoration::Cursor(_) => 0,
            Decoration::Copilot(s) => s.render_virt_lines(renderer, pos, virt_off),
        }
    }
}

} // verus!
