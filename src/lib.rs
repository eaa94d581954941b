//! Decorations drawn alongside formatted document text.
//!
//! A [`DecorationManager`] drives an ordered set of [`Decoration`]s through one
//! render pass: a line hook before each visual line, a grapheme hook at each
//! decoration's anchor, and a virtual-line hook after the line's text.

mod cursor;
mod decoration;
mod manager;
mod render;
mod suggestion;

pub use render::{DrawnGrapheme, FormattedGrapheme, LinePos, Position, Style, TextRenderer, Viewport};
pub use cursor::Cursor;
pub use suggestion::{split_lines, CopilotDecoration};
pub use decoration::Decoration;
pub use manager::{DecorationManager, Entry};
