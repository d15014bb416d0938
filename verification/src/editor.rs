//! The editor: cursor, terminal size and quit flag, and the loop that draws
//! them and takes the next event.

use vstd::prelude::*;
use vstd::string::*;

pub mod event;
pub mod state;
pub mod terminal;
pub mod view;

use crate::editor::event::{Event, FailurePolicy, Input, KeyCode};
use crate::editor::state::EditorState;
use crate::editor::terminal::{Command, Frame, Position, Size};
use crate::editor::view::buffer::{text_lines, Buffer};
use crate::editor::view::TextView;

verus! {

/// Why the loop ended before the user asked it to.
#[derive(Clone, Copy, Debug, PartialEq, Eq, Structural)]
pub enum EditorError {
    /// An event could not be read, and such failures are fatal.
    ReadFailed,
}

/// One round of the loop, as far as it is the editor's to decide: what to
/// draw, and whether to go on afterwards.
#[derive(Debug)]
pub struct Turn {
    /// The frame to draw now.
    pub frame: Frame,
    /// Whether the loop ends once the frame is drawn. Where it does not, the
    /// next event is to be read and handed to [`Editor::repl`].
    pub quit: bool,
}

/// The top of the program's state: where the cursor stands, how large the
/// terminal is, whether the user has asked to leave, and the view of the
/// document.
pub struct Editor {
    should_quit: bool,
    current_pos: Position,
    terminal_size: Size,
    view: TextView,
}

impl View for Editor {
    type V = EditorState;

    /// The four parts of the editor, the view as the lines it shows.
    closed spec fn view(&self) -> EditorState {
        EditorState {
            should_quit: self.should_quit,
            current_pos: self.current_pos,
            terminal_size: self.terminal_size,
            lines: self.view@,
        }
    }
}

impl Editor {
    /// The size assumed for a terminal that does not report its own.
    pub open spec fn fallback_size() -> Size {
        Size { width: 80, height: 24 }
    }

    /// A running editor on the empty document, for a terminal of the size
    /// `reported`, or of 80 columns and 24 rows where none was reported. The
    /// cursor starts in column 1 of the top row.
    pub fn default(reported: Option<Size>) -> (editor: Self)
        ensures
            editor@ == (EditorState {
                should_quit: false,
                current_pos: Position { x: 1, y: 0 },
                terminal_size: match reported {
                    Some(size) => size,
                    None => Self::fallback_size(),
                },
                lines: Seq::empty(),
            }),
    {
        let terminal_size = match reported {
            Some(size) => size,
            None => Size { width: 80, height: 24 },
        };
        Editor {
            should_quit: false,
            current_pos: Position { x: 1, y: 0 },
            terminal_size,
            view: TextView::default(),
        }
    }

    /// Whether the user has asked to leave.
    pub fn should_quit(&self) -> (quit: bool)
        ensures
            quit == self@.should_quit,
    {
        self.should_quit
    }

    /// Where the cursor stands.
    pub fn current_pos(&self) -> (position: Position)
        ensures
            position == self@.current_pos,
    {
        self.current_pos
    }

    /// The size of the terminal, as far as the editor knows it.
    pub fn terminal_size(&self) -> (size: Size)
        ensures
            size == self@.terminal_size,
    {
        self.terminal_size
    }

    /// The document shown.
    pub fn buffer(&self) -> (buffer: &Buffer)
        ensures
            buffer@ == self@.lines,
    {
        &self.view.buffer
    }

    /// Shows the document that `contents` is the text of. Where there is no
    /// text, because none could be read, the editor goes on with the document
    /// it had. Cursor, terminal size and quit flag stay as they are.
    pub fn load(&mut self, contents: Option<&str>)
        ensures
            final(self)@ == (EditorState {
                lines: match contents {
                    Some(text) => text_lines(text@),
                    None => old(self)@.lines,
                },
                ..old(self)@
            }),
    {
        self.view.load(contents);
    }

    /// Starts the loop: the first frame, and whether it is the last.
    pub fn run(&self) -> (turn: Turn)
        ensures
            turn.frame@ == self@.frame(),
            turn.quit == self@.should_quit,
    {
        Turn { frame: self.refresh_screen(), quit: self.should_quit }
    }

    /// Goes once round the loop: takes what the read came to, and says what
    /// to draw next and whether to stop then.
    ///
    /// A failed read ends the loop with an error where the policy is
    /// `Fatal`, and then the editor is as it was. Where the policy is
    /// `Ignore` the failure counts as no event: the same picture is drawn
    /// again and the loop goes on.
    pub fn repl(&mut self, input: &Input, policy: FailurePolicy) -> (turn: Result<
        Turn,
        EditorError,
    >)
        ensures
            final(self)@ == old(self)@.after_input(*input),
            turn is Err <==> *input == Input::ReadFailed && policy == FailurePolicy::Fatal,
            turn matches Err(error) ==> error == EditorError::ReadFailed,
            turn matches Ok(next) ==> next.frame@ == final(self)@.frame(),
            turn matches Ok(next) ==> next.quit == final(self)@.should_quit,
    {
        match input {
            Input::Event(event) => {
                self.evaluate_event(event);
                Ok(self.run())
            },
            Input::ReadFailed => {
                match policy {
                    FailurePolicy::Fatal => Err(EditorError::ReadFailed),
                    FailurePolicy::Ignore => Ok(self.run()),
                }
            },
        }
    }

    /// Applies one event to the editor.
    pub fn evaluate_event(&mut self, event: &Event)
        ensures
            final(self)@ == old(self)@.after_event(*event),
    {
        match event {
            Event::Key(key) => {
                if key.is_quit() {
                    self.should_quit = true;
                } else {
                    match key.code {
                        KeyCode::Up => {
                            self.current_pos.y = self.current_pos.y.saturating_sub(1);
                        },
                        KeyCode::Down => {
                            let last_row = self.terminal_size.last_row();
                            if self.current_pos.y < last_row {
                                self.current_pos.y = self.current_pos.y + 1;
                            } else {
                                self.current_pos.y = last_row;
                            }
                        },
                        KeyCode::Left => {
                            self.current_pos.x = self.current_pos.x.saturating_sub(1);
                        },
                        KeyCode::Right => {
                            let last_column = self.terminal_size.last_column();
                            if self.current_pos.x < last_column {
                                self.current_pos.x = self.current_pos.x + 1;
                            } else {
                                self.current_pos.x = last_column;
                            }
                        },
                        KeyCode::PageUp => {
                            self.current_pos.y = 0;
                        },
                        KeyCode::PageDown => {
                            self.current_pos.y = self.terminal_size.last_row();
                        },
                        KeyCode::Home => {
                            self.current_pos.x = 0;
                        },
                        KeyCode::End => {
                            self.current_pos.x = self.terminal_size.last_column();
                        },
                        _ => {},
                    }
                }
            },
            Event::Resize(width, height) => {
                self.terminal_size.width = *width as usize;
                self.terminal_size.height = *height as usize;
            },
            Event::Other => {},
        }
    }

    /// The frame that shows the editor as it is now.
    pub fn refresh_screen(&self) -> (frame: Frame)
        ensures
            frame@ == self@.frame(),
    {
        let mut frame = Frame::new();
        frame.push(Command::HideCursor);
        if self.should_quit {
            frame.push(Command::ClearScreen);
            frame.push(Command::MoveCursorTo(Position { x: 0, y: 0 }));
            frame.push(Command::Print(String::from_str("Goodbye !\r\n")));
        } else {
            frame.push(Command::MoveCursorTo(Position { x: 0, y: 0 }));
            frame.extend(self.view.render(self.terminal_size));
        }
        frame.push(Command::MoveCursorTo(self.current_pos));
        frame.push(Command::ShowCursor);
        frame.push(Command::Execute);
        frame
    }
}

} // verus!
