//! The ordered registry of decorations that one render pass dispatches to.

use vstd::prelude::*;
use crate::decoration::{anchor_after, anchor_at_or_after, Decoration};
use crate::render::{DrawnGrapheme, FormattedGrapheme, LinePos, TextRenderer, Viewport};

verus! {

/// A registered decoration together with its current anchor.
pub type Entry = (Decoration, Option<usize>);

/// The entries after grapheme `g` has been dispatched to each of them.
pub open spec fn dispatch(entries: Seq<Entry>, renderer: TextRenderer, g: FormattedGrapheme) -> Seq<Entry> {
    entries.map_values(|e: Entry| e.0.settle(e.1, renderer, g))
}

/// The surface after the line hooks of the first `n` entries ran on `pos`, in order.
pub open spec fn line_pass(drawn: Seq<DrawnGrapheme>, entries: Seq<Entry>, n: int, pos: LinePos, viewport: Viewport) -> Seq<DrawnGrapheme>
    decreases n,
{
    if n <= 0 {
        drawn
    } else {
        entries[n - 1].0.line_effect(line_pass(drawn, entries, n - 1, pos, viewport), pos, viewport)
    }
}

/// The virtual-row offsets handed to the entries, in order, when the first of
/// them is offered `off`: each next one is offered the rows the previous ones
/// took, and the entries from the first offset that reaches row `height` on
/// are offered none.
pub open spec fn virt_offsets(entries: Seq<Entry>, pos: LinePos, height: int, off: int) -> Seq<int>
    decreases entries.len(),
{
    if entries.len() == 0 || pos.visual_line + off >= height {
        Seq::empty()
    } else {
        seq![off] + virt_offsets(entries.drop_first(), pos, height, off + entries[0].0.virt_rows(pos))
    }
}

/// The surface after entry `k` drew its virtual lines at offset `offs[k]`,
/// for each offset in `offs`, in order.
pub open spec fn virt_pass(drawn: Seq<DrawnGrapheme>, entries: Seq<Entry>, offs: Seq<int>, pos: LinePos, viewport: Viewport) -> Seq<DrawnGrapheme>
    decreases offs.len(),
{
    if offs.len() == 0 {
        drawn
    } else {
        virt_pass(entries[0].0.virt_effect(drawn, pos, offs[0], viewport), entries.drop_first(), offs.drop_first(), pos, viewport)
    }
}

/// Owns the decorations of a render pass, in the order they were added.
///
/// That order is the order in which their hooks run and in which their
/// virtual lines are stacked below a visual line.
pub struct DecorationManager {
    pub decorations: Vec<Entry>,
}

impl Default for DecorationManager {
    fn default() -> (r: DecorationManager)
        ensures
            r.decorations@ == Seq::<Entry>::empty(),
    {
        DecorationManager::new()
    }
}

impl DecorationManager {
    /// A manager with no decorations.
    pub fn new() -> (r: DecorationManager)
        ensures
            r.decorations@ == Seq::<Entry>::empty(),
    {
        DecorationManager { decorations: Vec::new() }
    }

    /// Registers `decoration` after the ones already there, with anchor 0
    /// until the next `prepare_for_rendering`.
    pub fn add_decoration(&mut self, decoration: Decoration)
        ensures
            final(self).decorations@ == old(self).decorations@.push((decoration, Some(0usize))),
    {
        self.decorations.push((decoration, Some(0)));
    }

    /// Resets every anchor for a pass whose visible text starts at character
    /// `first_visible_char`.
    pub fn prepare_for_rendering(&mut self, first_visible_char: usize)
        ensures
            final(self).decorations@.len() == old(self).decorations@.len(),
            forall|i: int| 0 <= i < final(self).decorations@.len() ==> {
                let e = #[trigger] final(self).decorations@[i];
                &&& e.0 == old(self).decorations@[i].0
                &&& e.1 == e.0.reset_anchor(first_visible_char)
                &&& anchor_at_or_after(e.1, first_visible_char as int)
            },
    {
        let n = self.decorations.len();
        let mut i: usize = 0;
        while i < n
            invariant
                i <= n,
                n == old(self).decorations@.len(),
                self.decorations@.len() == n,
                forall|j: int| 0 <= j < i ==> {
                    let e = #[trigger] self.decorations@[j];
                    &&& e.0 == old(self).decorations@[j].0
                    &&& e.1 == e.0.reset_anchor(first_visible_char)
                    &&& anchor_at_or_after(e.1, first_visible_char as int)
                },
                forall|j: int| i <= j < n ==> #[trigger] self.decorations@[j] == old(self).decorations@[j],
            decreases n - i,
        {
            let anchor = self.decorations[i].0.reset_pos(first_visible_char);
            self.decorations[i].1 = anchor;
            i += 1;
        }
    }

    /// Dispatches `grapheme` to every decoration, in order: anchors left
    /// behind by concealed text are skipped forward, and the grapheme hook
    /// runs for each decoration whose anchor lands on the grapheme.
    pub fn decorate_grapheme(&mut self, renderer: &mut TextRenderer, grapheme: &FormattedGrapheme)
        ensures
            final(self).decorations@ == dispatch(old(self).decorations@, *old(renderer), *grapheme),
            *final(renderer) == *old(renderer),
    {
        let n = self.decorations.len();
        let mut i: usize = 0;
        while i < n
            invariant
                i <= n,
                n == old(self).decorations@.len(),
                self.decorations@.len() == n,
                *renderer == *old(renderer),
                forall|j: int| 0 <= j < i ==> #[trigger] self.decorations@[j]
                    == old(self).decorations@[j].0.settle(old(self).decorations@[j].1, *renderer, *grapheme),
                forall|j: int| i <= j < n ==> #[trigger] self.decorations@[j] == old(self).decorations@[j],
            decreases n - i,
        {
            settle_entry(&mut self.decorations[i], renderer, grapheme);
            i += 1;
        }
        proof {
            assert(self.decorations@ =~= dispatch(old(self).decorations@, *renderer, *grapheme));
        }
    }

    /// Runs every decoration's line hook on `pos`, in order.
    pub fn decorate_line(&mut self, renderer: &mut TextRenderer, pos: LinePos)
        ensures
            *final(self) == *old(self),
            final(renderer).viewport == old(renderer).viewport,
            final(renderer).col_offset == old(renderer).col_offset,
            final(renderer).drawn@ == line_pass(old(renderer).drawn@, old(self).decorations@, old(self).decorations@.len() as int, pos, old(renderer).viewport),
    {
        let n = self.decorations.len();
        let mut i: usize = 0;
        while i < n
            invariant
                i <= n,
                n == self.decorations@.len(),
                *self == *old(self),
                renderer.viewport == old(renderer).viewport,
                renderer.col_offset == old(renderer).col_offset,
                renderer.drawn@ == line_pass(old(renderer).drawn@, self.decorations@, i as int, pos, renderer.viewport),
            decreases n - i,
        {
            self.decorations[i].0.decorate_line(renderer, pos);
            i += 1;
        }
    }

    /// Runs the virtual-line hooks on `pos`, in order, offering each
    /// decoration the rows below the ones earlier decorations took, starting
    /// one row below the line; stops at the first decoration whose offset
    /// would reach the bottom of the viewport.
    pub fn render_virtual_lines(&mut self, renderer: &mut TextRenderer, pos: LinePos)
        ensures
            *final(self) == *old(self),
            final(renderer).viewport == old(renderer).viewport,
            final(renderer).col_offset == old(renderer).col_offset,
            final(renderer).drawn@ == virt_pass(
                old(renderer).drawn@,
                old(self).decorations@,
                virt_offsets(old(self).decorations@, pos, old(renderer).viewport.height as int, 1),
                pos,
                old(renderer).viewport,
            ),
    {
        let ghost entries = self.decorations@;
        let ghost vp = renderer.viewport;
        let ghost start = renderer.drawn@;
        let n = self.decorations.len();
        let height = renderer.viewport.height as u32;
        let mut virt_off: u32 = 1;
        let mut i: usize = 0;
        proof {
            assert(entries.skip(0) =~= entries);
        }
        while i < n
            invariant_except_break
                virt_pass(start, entries, virt_offsets(entries, pos, height as int, 1), pos, vp)
                    == virt_pass(renderer.drawn@, entries.skip(i as int), virt_offsets(entries.skip(i as int), pos, height as int, virt_off as int), pos, vp),
            invariant
                i <= n,
                n == entries.len(),
                entries == self.decorations@,
                *self == *old(self),
                vp == renderer.viewport,
                height == vp.height,
                renderer.viewport == old(renderer).viewport,
                renderer.col_offset == old(renderer).col_offset,
                1 <= virt_off < 0x20000,
            ensures
                *self == *old(self),
                renderer.viewport == old(renderer).viewport,
                renderer.col_offset == old(renderer).col_offset,
                virt_pass(start, entries, virt_offsets(entries, pos, height as int, 1), pos, vp) == renderer.drawn@,
            decreases n - i,
        {
            let ghost rest = entries.skip(i as int);
            if pos.visual_line as u32 + virt_off >= height {
                proof {
                    assert(virt_offsets(rest, pos, height as int, virt_off as int) =~= Seq::<int>::empty());
                }
                break;
            }
            let ghost before = renderer.drawn@;
            let rows = self.decorations[i].0.render_virt_lines(renderer, pos, virt_off as u16);
            proof {
                assert(rest.drop_first() =~= entries.skip(i + 1));
                assert(rest[0] == entries[i as int]);
                let offs = virt_offsets(rest, pos, height as int, virt_off as int);
                assert(offs.drop_first() =~= virt_offsets(entries.skip(i + 1), pos, height as int, virt_off + rows));
            }
            virt_off = virt_off + rows as u32;
            i += 1;
            proof {
                if i == n {
                    assert(entries.skip(i as int) =~= Seq::<Entry>::empty());
                }
            }
        }
    }
}

/// Every decoration takes a non-negative number of virtual rows.
proof fn lemma_virt_rows_nonneg(d: Decoration, pos: LinePos)
    ensures
        d.virt_rows(pos) >= 0,
{
}

/// The offsets handed out from `off` on: no more than there are entries, each
/// at least `off` and inside the viewport, and each at or past the rows taken
/// by every entry before it.
proof fn lemma_offsets(entries: Seq<Entry>, pos: LinePos, height: int, off: int)
    ensures
        ({
            let offs = virt_offsets(entries, pos, height, off);
            &&& offs.len() <= entries.len()
            &&& forall|k: int| 0 <= k < offs.len() ==> off <= #[trigger] offs[k] && pos.visual_line + offs[k] < height
            &&& forall|i: int, j: int| 0 <= i < j < offs.len() ==> #[trigger] offs[i] + entries[i].0.virt_rows(pos) <= #[trigger] offs[j]
        }),
    decreases entries.len(),
{
    if !(entries.len() == 0 || pos.visual_line + off >= height) {
        let rows = entries[0].0.virt_rows(pos);
        lemma_virt_rows_nonneg(entries[0].0, pos);
        let tail = entries.drop_first();
        let rest = virt_offsets(tail, pos, height, off + rows);
        lemma_offsets(tail, pos, height, off + rows);
        let offs = virt_offsets(entries, pos, height, off);
        assert(offs == seq![off] + rest);
        assert forall|k: int| 0 <= k < offs.len() implies off <= #[trigger] offs[k] && pos.visual_line + offs[k] < height by {
            if k > 0 {
                assert(offs[k] == rest[k - 1]);
            }
        }
        assert forall|i: int, j: int| 0 <= i < j < offs.len() implies #[trigger] offs[i] + entries[i].0.virt_rows(pos) <= #[trigger] offs[j] by {
            assert(offs[j] == rest[j - 1]);
            if i > 0 {
                assert(offs[i] == rest[i - 1]);
                assert(tail[i - 1] == entries[i]);
            }
        }
    }
}

/// The virtual-line hooks are offered rows inside the viewport only, below
/// the text line, and decorations past the bottom are skipped.
pub proof fn virtual_offsets_stay_in_viewport(entries: Seq<Entry>, pos: LinePos, height: int)
    ensures
        ({
            let offs = virt_offsets(entries, pos, height, 1);
            &&& offs.len() <= entries.len()
            &&& forall|k: int| 0 <= k < offs.len() ==> 1 <= #[trigger] offs[k] && pos.visual_line + offs[k] < height
        }),
{
    lemma_offsets(entries, pos, height, 1);
}

/// Virtual rows are stacked in registration order without overlap: a
/// decoration is offered rows only below all the rows that every decoration
/// registered before it took.
pub proof fn virtual_rows_do_not_overlap(entries: Seq<Entry>, pos: LinePos, height: int)
    ensures
        ({
            let offs = virt_offsets(entries, pos, height, 1);
            forall|i: int, j: int| 0 <= i < j < offs.len() ==> #[trigger] offs[i] + entries[i].0.virt_rows(pos) <= #[trigger] offs[j]
        }),
{
    lemma_offsets(entries, pos, height, 1);
}

/// After a grapheme is dispatched, every anchor is inactive or past it: any
/// gap left by concealed text has been skipped, and no hook is still waiting
/// on an index the stream has passed.
pub proof fn dispatch_moves_anchors_past(entries: Seq<Entry>, renderer: TextRenderer, g: FormattedGrapheme)
    ensures
        forall|i: int| 0 <= i < entries.len() ==> anchor_after(#[trigger] dispatch(entries, renderer, g)[i].1, g.char_idx as int),
{
}

/// A decoration whose anchor is the grapheme's index, or whose anchor was
/// left behind and skips onto it, has its grapheme hook run and goes inactive.
pub proof fn dispatch_fires_at_anchor(entries: Seq<Entry>, renderer: TextRenderer, g: FormattedGrapheme, i: int)
    requires
        0 <= i < entries.len(),
        entries[i].1 == Some(g.char_idx)
            || (entries[i].1 matches Some(a) && a < g.char_idx && entries[i].0.skip_anchor(g.char_idx) == Some(g.char_idx)),
    ensures
        dispatch(entries, renderer, g)[i] == (entries[i].0.after_grapheme(renderer, g), None::<usize>),
{
}

/// The grapheme hook of a decoration fires at most once per character index:
/// dispatching a second grapheme at the same index changes nothing.
pub proof fn dispatch_fires_once_per_index(entries: Seq<Entry>, renderer: TextRenderer, g: FormattedGrapheme, g2: FormattedGrapheme)
    requires
        g2.char_idx == g.char_idx,
    ensures
        dispatch(dispatch(entries, renderer, g), renderer, g2) == dispatch(entries, renderer, g),
{
    let once = dispatch(entries, renderer, g);
    dispatch_moves_anchors_past(entries, renderer, g);
    assert(dispatch(once, renderer, g2) =~= once);
}

/// Brings one entry's anchor past `grapheme`, running its hooks on the way.
fn settle_entry(entry: &mut Entry, renderer: &mut TextRenderer, grapheme: &FormattedGrapheme)
    ensures
        *final(entry) == old(entry).0.settle(old(entry).1, *old(renderer), *grapheme),
        *final(renderer) == *old(renderer),
{
    let c: usize = grapheme.char_idx;
    loop
        invariant
            c == grapheme.char_idx,
            *renderer == *old(renderer),
            entry.0.settle(entry.1, *renderer, *grapheme) == old(entry).0.settle(old(entry).1, *renderer, *grapheme),
        ensures
            *renderer == *old(renderer),
            anchor_after(entry.1, c as int),
            entry.0.settle(entry.1, *renderer, *grapheme) == old(entry).0.settle(old(entry).1, *renderer, *grapheme),
        decreases match entry.1 {
            Some(a) => if a < c { 2nat } else if a == c { 1nat } else { 0nat },
            None => 0nat,
        },
    {
        match entry.1 {
            Some(a) => {
                if a < c {
                    // The anchor's text was concealed: catch up to this grapheme.
                    entry.1 = entry.0.skip_concealed_anchor(c);
                } else if a == c {
                    entry.1 = entry.0.decorate_grapheme(renderer, grapheme);
                } else {
                    break;
                }
            },
            None => {
                break;
            },
        }
    }
}

} // verus!
