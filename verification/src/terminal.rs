//! The data the library exchanges with the terminal driver: screen
//! coordinates, the viewport size, and the primitive output commands a
//! render cycle produces. The driver that executes the commands lives
//! outside the library.

use vstd::prelude::*;

verus! {

/// A position on the screen, measured in columns and rows from the
/// top-left corner, both zero-based.
#[derive(Clone, Copy, PartialEq, Eq, Structural, Debug, Default)]
pub struct Position {
    pub col: usize,
    pub row: usize,
}

/// The size of the viewport in rows and columns. It is queried fresh from
/// the terminal driver each cycle and never cached, since the terminal may
/// be resized between cycles.
#[derive(Clone, Copy, PartialEq, Eq, Structural, Debug)]
pub struct ViewportSize {
    pub height: usize,
    pub width: usize,
}

/// One primitive operation of the terminal driver. A render cycle is a
/// sequence of these, flushed as one atomic write.
#[derive(Debug, PartialEq, Eq)]
pub enum TermCommand {
    /// Hide the visible cursor while redrawing.
    HideCursor,
    /// Show the visible cursor again.
    ShowCursor,
    /// Clear the whole viewport.
    ClearAll,
    /// Clear the row the write cursor is on.
    ClearLine,
    /// Move the write/visible cursor to a position.
    MoveTo(Position),
    /// Write text at the write cursor, with no implicit line break.
    Print(String),
    /// End the current row (carriage return plus line feed).
    LineBreak,
    /// Commit all buffered output atomically.
    Flush,
}

/// The mathematical model of a terminal command: identical to
/// [`TermCommand`] except that printed text is a sequence of characters.
pub ghost enum CommandModel {
    HideCursor,
    ShowCursor,
    ClearAll,
    ClearLine,
    MoveTo(Position),
    Print(Seq<char>),
    LineBreak,
    Flush,
}

/// The model of one command.
pub open spec fn cmd_model(c: TermCommand) -> CommandModel {
    match c {
        TermCommand::HideCursor => CommandModel::HideCursor,
        TermCommand::ShowCursor => CommandModel::ShowCursor,
        TermCommand::ClearAll => CommandModel::ClearAll,
        TermCommand::ClearLine => CommandModel::ClearLine,
        TermCommand::MoveTo(p) => CommandModel::MoveTo(p),
        TermCommand::Print(s) => CommandModel::Print(s@),
        TermCommand::LineBreak => CommandModel::LineBreak,
        TermCommand::Flush => CommandModel::Flush,
    }
}

/// The model of a command sequence.
pub open spec fn cmd_models(s: Seq<TermCommand>) -> Seq<CommandModel> {
    s.map_values(|c: TermCommand| cmd_model(c))
}

} // verus!
