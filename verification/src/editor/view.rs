//! The text view: which text each row of the terminal shows.

use vstd::prelude::*;
use vstd::string::*;

pub mod buffer;

use crate::editor::terminal::{Command, CommandView, Frame, Size};
use crate::editor::view::buffer::{text_lines, Buffer};

verus! {

/// The name that the welcome banner shows.
pub const NAME: &'static str = "hecto";

/// The version that the welcome banner shows.
pub const VERSION: &'static str = "0.1.0";

/// The welcome banner before padding: name and version.
pub open spec fn title() -> Seq<char> {
    NAME@ + " editor -- Version "@ + VERSION@
}

/// `count` spaces.
pub open spec fn spaces(count: nat) -> Seq<char> {
    Seq::new(count, |i: int| ' ')
}

/// The text that marks a row below the end of the document.
pub open spec fn placeholder() -> Seq<char> {
    "~"@
}

/// What ends every row of a frame but the last: carriage return, line feed.
pub open spec fn line_break() -> Seq<char> {
    "\r\n"@
}

/// The first `width` characters of `text`, or all of it where it has no more.
pub open spec fn clipped(text: Seq<char>, width: nat) -> Seq<char> {
    if text.len() <= width {
        text
    } else {
        text.take(width as int)
    }
}

/// The welcome banner for a terminal of `width` columns: a tilde, then the
/// title moved towards the middle by spaces, the whole cut off after `width`
/// characters. Half the columns that the title leaves free go before it; the
/// tilde takes the place of one of these spaces.
pub open spec fn welcome_message(width: nat) -> Seq<char> {
    let free: nat = if width >= title().len() {
        (width - title().len()) as nat
    } else {
        0
    };
    let padding: nat = free / 2;
    let blank: nat = if padding >= 1 {
        (padding - 1) as nat
    } else {
        0
    };
    clipped(placeholder() + spaces(blank) + title(), width)
}

/// The text of row `row` of a terminal of dimensions `size` that shows the
/// document `lines`.
///
/// For the empty document every row shows the placeholder, but the row a
/// third of the way down, which shows the welcome banner. Otherwise row `k`
/// shows line `k` of the document, cut off at the right edge of the terminal,
/// and the rows below the last line show the placeholder.
pub open spec fn row_text(lines: Seq<Seq<char>>, size: Size, row: int) -> Seq<char> {
    if lines.len() == 0 {
        if row == size.height / 3 {
            welcome_message(size.width as nat)
        } else {
            placeholder()
        }
    } else if 0 <= row < lines.len() {
        clipped(lines[row], size.width as nat)
    } else {
        placeholder()
    }
}

/// The commands that draw row `row`: erase the row, print its text and,
/// unless it is the bottom row, go on to the next row. Nothing follows the
/// bottom row, so that the terminal never scrolls.
pub open spec fn row_commands(lines: Seq<Seq<char>>, size: Size, row: int) -> Seq<CommandView> {
    let drawn = seq![CommandView::ClearLine, CommandView::Print(row_text(lines, size, row))];
    if row + 1 < size.height {
        drawn.push(CommandView::Print(line_break()))
    } else {
        drawn
    }
}

/// The commands that draw the rows above row `rows`, from the top down.
pub open spec fn rows_commands(lines: Seq<Seq<char>>, size: Size, rows: nat) -> Seq<CommandView>
    decreases rows,
{
    if rows == 0 {
        Seq::empty()
    } else {
        rows_commands(lines, size, (rows - 1) as nat) + row_commands(lines, size, rows - 1)
    }
}

/// The welcome banner is never wider than the terminal, and neither is a
/// row that shows a line of the document.
pub proof fn lemma_text_fits(text: Seq<char>, width: nat)
    ensures
        clipped(text, width).len() <= width,
        welcome_message(width).len() <= width,
        text.len() <= width ==> clipped(text, width) == text,
{
}

/// The rows are drawn by erasing and printing alone: no command among them
/// moves, hides or shows the cursor, clears the screen, or hands anything to
/// the terminal.
pub proof fn lemma_rows_erase_and_print(lines: Seq<Seq<char>>, size: Size, rows: nat)
    ensures
        forall|i: int|
            0 <= i < rows_commands(lines, size, rows).len() ==> {
                let command = #[trigger] rows_commands(lines, size, rows)[i];
                command is ClearLine || command is Print
            },
    decreases rows,
{
    if rows > 0 {
        lemma_rows_erase_and_print(lines, size, (rows - 1) as nat);
    }
}

/// Whether `frame` draws row `row` in its place: the three commands from
/// place `3 * row` on erase the row, print its text and go on to the next
/// row, the last of them left out for the bottom row.
pub open spec fn draws_row(
    frame: Seq<CommandView>,
    lines: Seq<Seq<char>>,
    size: Size,
    row: int,
) -> bool {
    &&& 3 * row + 1 < frame.len()
    &&& frame[3 * row] == CommandView::ClearLine
    &&& frame[3 * row + 1] == CommandView::Print(row_text(lines, size, row))
    &&& row + 1 < size.height ==> 3 * row + 2 < frame.len() && frame[3 * row + 2]
        == CommandView::Print(line_break())
}

/// The rows of a frame, one by one. A frame for a terminal of `height` rows
/// draws exactly `height` rows and never goes past the bottom one: three
/// commands for each row and two for the bottom row, after which nothing
/// follows.
pub proof fn lemma_rows_commands_shape(lines: Seq<Seq<char>>, size: Size, rows: nat)
    requires
        rows <= size.height,
    ensures
        rows_commands(lines, size, rows).len() == if rows == size.height && rows > 0 {
            3 * rows - 1
        } else {
            3 * rows as int
        },
        forall|row: int|
            0 <= row < rows ==> #[trigger] draws_row(
                rows_commands(lines, size, rows),
                lines,
                size,
                row,
            ),
    decreases rows,
{
    if rows > 0 {
        let above = rows_commands(lines, size, (rows - 1) as nat);
        let frame = rows_commands(lines, size, rows);
        lemma_rows_commands_shape(lines, size, (rows - 1) as nat);
        assert forall|row: int| 0 <= row < rows implies #[trigger] draws_row(
            frame,
            lines,
            size,
            row,
        ) by {
            if row < rows - 1 {
                assert(draws_row(above, lines, size, row));
            }
        }
    }
}

/// The part of the editor that shows a document. It owns the document's
/// buffer; where the cursor stands is not its business.
pub struct TextView {
    pub buffer: Buffer,
}

impl View for TextView {
    type V = Seq<Seq<char>>;

    /// The lines of the document shown.
    open spec fn view(&self) -> Seq<Seq<char>> {
        self.buffer@
    }
}

impl Default for TextView {
    /// A view of the empty document.
    fn default() -> (view: Self)
        ensures
            view@ == Seq::<Seq<char>>::empty(),
    {
        TextView { buffer: Buffer::default() }
    }
}

impl TextView {
    /// Shows the document that `contents` is the text of. Where there is no
    /// text, because none could be read, the view goes on showing what it
    /// showed before.
    pub fn load(&mut self, contents: Option<&str>)
        ensures
            final(self)@ == match contents {
                Some(text) => text_lines(text@),
                None => old(self)@,
            },
    {
        match contents {
            Some(text) => {
                self.buffer = Buffer::load(text);
            },
            None => {},
        }
    }

    /// The text of the welcome banner for a terminal of `width` columns.
    pub fn draw_welcome_msg(width: usize) -> (text: String)
        ensures
            text@ == welcome_message(width as nat),
    {
        let mut message = String::from_str(NAME);
        message.append(" editor -- Version ");
        message.append(VERSION);
        let len = message.as_str().unicode_len();
        let padding = width.saturating_sub(len) / 2;
        let blank = padding.saturating_sub(1);
        proof {
            reveal_strlit(" ");
        }
        let mut banner = String::from_str("~");
        let mut count: usize = 0;
        while count < blank
            invariant
                count <= blank,
                banner@ == placeholder() + spaces(count as nat),
                " "@ == seq![' '],
            decreases blank - count,
        {
            banner.append(" ");
            count = count + 1;
        }
        banner.append(message.as_str());
        Self::draw_line(&banner, width)
    }

    /// The text of a row below the end of the document.
    pub fn draw_empty_rows() -> (text: String)
        ensures
            text@ == placeholder(),
    {
        String::from_str("~")
    }

    /// The text of a row that shows `line` on a terminal of `width` columns.
    pub fn draw_line(line: &String, width: usize) -> (text: String)
        ensures
            text@ == clipped(line@, width as nat),
    {
        let len = line.as_str().unicode_len();
        if len <= width {
            line.clone()
        } else {
            String::from_str(line.as_str().substring_char(0, width))
        }
    }

    /// The text of row `row` on a terminal of dimensions `size`.
    pub fn draw_row(&self, size: Size, row: usize) -> (text: String)
        ensures
            text@ == row_text(self@, size, row as int),
    {
        if self.buffer.is_empty() {
            if row == size.height / 3 {
                Self::draw_welcome_msg(size.width)
            } else {
                Self::draw_empty_rows()
            }
        } else if row < self.buffer.lines.len() {
            Self::draw_line(&self.buffer.lines[row], size.width)
        } else {
            Self::draw_empty_rows()
        }
    }

    /// The commands that draw every row of a terminal of dimensions `size`,
    /// from the top down. The cursor is taken to stand at the start of the
    /// top row.
    pub fn render(&self, size: Size) -> (frame: Frame)
        ensures
            frame@ == rows_commands(self@, size, size.height as nat),
    {
        let mut frame = Frame::new();
        let mut row: usize = 0;
        while row < size.height
            invariant
                row <= size.height,
                frame@ == rows_commands(self@, size, row as nat),
            decreases size.height - row,
        {
            frame.push(Command::ClearLine);
            frame.push(Command::Print(self.draw_row(size, row)));
            if row + 1 < size.height {
                frame.push(Command::Print(String::from_str("\r\n")));
            }
            row = row + 1;
        }
        frame
    }
}

} // verus!
