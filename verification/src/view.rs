//! The viewport renderer that owns an optional read-only line buffer:
//! buffered line `i` is drawn verbatim on viewport row `i`, and rows
//! beyond the buffer fall back to placeholder rendering.

use vstd::prelude::*;

use crate::banner;
use crate::render::{draw_rows, render_model};
use crate::terminal::{cmd_model, cmd_models, CommandModel, TermCommand, ViewportSize};

verus! {

/// An inert, pre-populated sequence of display lines. Index `i` maps to
/// viewport row `i`; there are no mutation operations.
#[derive(Default, Debug)]
pub struct Buffer {
    pub lines: Vec<String>,
}

/// The viewport renderer: redraws every row of the viewport from its line
/// buffer, falling back to the banner and placeholder rows.
#[derive(Default, Debug)]
pub struct TextView {
    pub buffer: Buffer,
}

impl TextView {
    /// A renderer over the given buffered lines.
    pub fn new(lines: Vec<String>) -> (v: TextView)
        ensures
            v.buffer.lines@ == lines@,
    {
        TextView { buffer: Buffer { lines } }
    }

    /// Redraws every row of the viewport: the buffered line where one
    /// exists, the welcome banner on the one-third row, a bare tilde
    /// everywhere else, with a line break after every row except the
    /// last. A viewport with no rows or no columns draws nothing.
    pub fn render(&self, size: ViewportSize) -> (cmds: Vec<TermCommand>)
        ensures
            cmd_models(cmds@) == render_model(self.buffer.lines.deep_view(), size),
    {
        draw_rows(&self.buffer.lines, size)
    }

    /// Builds the welcome banner row for the given viewport width.
    pub fn output_welcome(width: usize) -> (r: String)
        ensures
            r@ == banner::banner_row(width as nat),
    {
        banner::output_welcome(width)
    }

    /// The placeholder for a row with no content: a single tilde.
    pub fn draw_empty_row() -> (c: TermCommand)
        ensures
            cmd_model(c) == CommandModel::Print(seq!['~']),
    {
        let tilde = String::from_str("~");
        proof {
            reveal_strlit("~");
            assert(tilde@ =~= seq!['~']);
        }
        TermCommand::Print(tilde)
    }
}

} // verus!
