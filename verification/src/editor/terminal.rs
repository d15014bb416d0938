//! The vocabulary of the terminal: cells, dimensions and drawing commands.

use vstd::prelude::*;

verus! {

/// A cell of the terminal, or a cursor location. Column `x` and row `y` count
/// from zero at the top left.
#[derive(Clone, Copy, Debug, PartialEq, Eq, Structural)]
pub struct Position {
    pub x: usize,
    pub y: usize,
}

/// The dimensions of the terminal, in cells.
#[derive(Clone, Copy, Debug, PartialEq, Eq, Structural)]
pub struct Size {
    pub width: usize,
    pub height: usize,
}

impl Size {
    /// The rightmost column: `width - 1`, or 0 where there is no column at all.
    pub open spec fn spec_last_column(self) -> usize {
        if self.width == 0 {
            0
        } else {
            (self.width - 1) as usize
        }
    }

    /// The bottom row: `height - 1`, or 0 where there is no row at all.
    pub open spec fn spec_last_row(self) -> usize {
        if self.height == 0 {
            0
        } else {
            (self.height - 1) as usize
        }
    }

    /// Whether `position` lies on a terminal of these dimensions. A terminal
    /// without columns or rows is treated as holding the origin only.
    pub open spec fn holds(self, position: Position) -> bool {
        position.x <= self.spec_last_column() && position.y <= self.spec_last_row()
    }

    /// The rightmost column, for the edge that Right and End stop at.
    #[verifier::when_used_as_spec(spec_last_column)]
    pub fn last_column(self) -> (column: usize)
        ensures
            column == self.spec_last_column(),
    {
        self.width.saturating_sub(1)
    }

    /// The bottom row, for the edge that Down and PageDown stop at.
    #[verifier::when_used_as_spec(spec_last_row)]
    pub fn last_row(self) -> (row: usize)
        ensures
            row == self.spec_last_row(),
    {
        self.height.saturating_sub(1)
    }
}

/// One thing that the terminal can be asked to do. Position, visibility and
/// content only: whoever performs a command decides how.
#[derive(Debug, PartialEq, Eq)]
pub enum Command {
    HideCursor,
    ShowCursor,
    /// Erase every cell.
    ClearScreen,
    /// Erase the row that the cursor stands in.
    ClearLine,
    /// Put the cursor on this cell. The position is taken as it is.
    MoveCursorTo(Position),
    /// Write this text where the cursor stands. No line break is added.
    Print(String),
    /// Hand everything asked for so far to the terminal, at once.
    Execute,
}

/// A command as the contracts see it: with its text as a sequence of
/// characters.
pub enum CommandView {
    HideCursor,
    ShowCursor,
    ClearScreen,
    ClearLine,
    MoveCursorTo(Position),
    Print(Seq<char>),
    Execute,
}

impl View for Command {
    type V = CommandView;

    open spec fn view(&self) -> CommandView {
        match self {
            Command::HideCursor => CommandView::HideCursor,
            Command::ShowCursor => CommandView::ShowCursor,
            Command::ClearScreen => CommandView::ClearScreen,
            Command::ClearLine => CommandView::ClearLine,
            Command::MoveCursorTo(position) => CommandView::MoveCursorTo(*position),
            Command::Print(text) => CommandView::Print(text@),
            Command::Execute => CommandView::Execute,
        }
    }
}

/// The commands that draw one picture of the editor, in the order in which
/// they are to be performed.
#[derive(Debug)]
pub struct Frame {
    pub commands: Vec<Command>,
}

impl View for Frame {
    type V = Seq<CommandView>;

    open spec fn view(&self) -> Seq<CommandView> {
        self.commands@.map_values(|command: Command| command@)
    }
}

impl Frame {
    /// The frame that asks for nothing.
    pub fn new() -> (frame: Self)
        ensures
            frame@ == Seq::<CommandView>::empty(),
    {
        Frame { commands: Vec::new() }
    }

    /// Adds `command` at the end.
    pub fn push(&mut self, command: Command)
        ensures
            final(self)@ == old(self)@.push(command@),
    {
        self.commands.push(command);
    }

    /// Adds the commands of `other` at the end, in their order.
    pub fn extend(&mut self, other: Frame)
        ensures
            final(self)@ == old(self)@ + other@,
    {
        let mut rest = other.commands;
        self.commands.append(&mut rest);
    }
}

} // verus!
