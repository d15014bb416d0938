//! The editor as a state machine: the state that the contracts speak of,
//! what each event makes of it, the frame that shows it, and what holds of
//! all three.

use vstd::math::{max, min};
use vstd::prelude::*;

use crate::editor::event::{Event, Input, KeyCode, KeyEvent, KeyModifiers};
use crate::editor::terminal::{CommandView, Position, Size};
use crate::editor::view::{lemma_rows_erase_and_print, rows_commands};

verus! {

/// The text that takes leave of the user.
pub open spec fn farewell() -> Seq<char> {
    "Goodbye !\r\n"@
}

/// The top left cell.
pub open spec fn origin() -> Position {
    Position { x: 0, y: 0 }
}

/// The editor as the contracts see it. It is running until `should_quit` is
/// raised, and quitting from then on.
pub struct EditorState {
    pub should_quit: bool,
    pub current_pos: Position,
    pub terminal_size: Size,
    /// The lines of the document shown.
    pub lines: Seq<Seq<char>>,
}

impl EditorState {
    /// Whether the cursor stands on the terminal.
    pub open spec fn cursor_on_terminal(self) -> bool {
        self.terminal_size.holds(self.current_pos)
    }

    /// The state with the cursor in column `x`, nothing else changed.
    pub open spec fn with_x(self, x: int) -> EditorState {
        EditorState { current_pos: Position { x: x as usize, y: self.current_pos.y }, ..self }
    }

    /// The state with the cursor in row `y`, nothing else changed.
    pub open spec fn with_y(self, y: int) -> EditorState {
        EditorState { current_pos: Position { x: self.current_pos.x, y: y as usize }, ..self }
    }

    /// The state after a key.
    ///
    /// The quit combination raises the quit flag and moves nothing. An arrow
    /// moves the cursor by one cell, and not past the edge of the terminal.
    /// Home and End put it in the first and the last column, PageUp and
    /// PageDown in the top and the bottom row. Any other key changes nothing.
    /// But for the quit combination, the modifiers held down make no
    /// difference.
    pub open spec fn after_key(self, key: KeyEvent) -> EditorState {
        let Position { x, y } = self.current_pos;
        let last_column = self.terminal_size.spec_last_column();
        let last_row = self.terminal_size.spec_last_row();
        if key.spec_is_quit() {
            EditorState { should_quit: true, ..self }
        } else {
            match key.code {
                KeyCode::Up => self.with_y(max(y - 1, 0)),
                KeyCode::Down => self.with_y(min(y + 1, last_row as int)),
                KeyCode::Left => self.with_x(max(x - 1, 0)),
                KeyCode::Right => self.with_x(min(x + 1, last_column as int)),
                KeyCode::PageUp => self.with_y(0),
                KeyCode::PageDown => self.with_y(last_row as int),
                KeyCode::Home => self.with_x(0),
                KeyCode::End => self.with_x(last_column as int),
                KeyCode::Char(_) => self,
                KeyCode::Other => self,
            }
        }
    }

    /// The state after an event.
    ///
    /// A resize replaces the terminal size by the one reported. It leaves the
    /// cursor where it is, also where that is now off the terminal: the next
    /// Right or End brings the column back onto it, the next Down or PageDown
    /// the row.
    pub open spec fn after_event(self, event: Event) -> EditorState {
        match event {
            Event::Key(key) => self.after_key(key),
            Event::Resize(width, height) => EditorState {
                terminal_size: Size { width: width as usize, height: height as usize },
                ..self
            },
            Event::Other => self,
        }
    }

    /// The state after an attempt to read an event: a failed read changes
    /// nothing.
    pub open spec fn after_input(self, input: Input) -> EditorState {
        match input {
            Input::Event(event) => self.after_event(event),
            Input::ReadFailed => self,
        }
    }

    /// The state after the events of `events`, in their order.
    pub open spec fn after_events(self, events: Seq<Event>) -> EditorState
        decreases events.len(),
    {
        if events.len() == 0 {
            self
        } else {
            self.after_events(events.drop_last()).after_event(events.last())
        }
    }

    /// The frame that shows the state.
    ///
    /// The cursor is hidden while the picture is drawn, put where the state
    /// has it afterwards and shown again; then everything is handed to the
    /// terminal at once. The picture of a running editor is the rows of the
    /// view, drawn from the top left cell. That of a quitting editor is an
    /// empty screen with the farewell in its top row.
    pub open spec fn frame(self) -> Seq<CommandView> {
        let picture = if self.should_quit {
            seq![
                CommandView::ClearScreen,
                CommandView::MoveCursorTo(origin()),
                CommandView::Print(farewell()),
            ]
        } else {
            seq![CommandView::MoveCursorTo(origin())] + rows_commands(
                self.lines,
                self.terminal_size,
                self.terminal_size.height as nat,
            )
        };
        seq![CommandView::HideCursor] + picture + seq![
            CommandView::MoveCursorTo(self.current_pos),
            CommandView::ShowCursor,
            CommandView::Execute,
        ]
    }
}

/// A key with the code `code` and the modifiers `modifiers`.
pub open spec fn key(code: KeyCode, modifiers: KeyModifiers) -> Event {
    Event::Key(KeyEvent { code, modifiers })
}

/// No key moves the cursor off the terminal, and none changes the size of the
/// terminal. So while no resize comes in, whatever keys do (any run of Left,
/// Right, Up and Down among them), a cursor that stands on the terminal stays
/// on it after every one of them: its column is at most `width - 1` and its
/// row at most `height - 1`.
pub proof fn lemma_cursor_stays_on_terminal(state: EditorState, events: Seq<Event>)
    requires
        state.cursor_on_terminal(),
        forall|i: int| 0 <= i < events.len() ==> !(#[trigger] events[i] is Resize),
    ensures
        forall|k: int|
            0 <= k <= events.len() ==> {
                let then = #[trigger] state.after_events(events.take(k));
                &&& then.terminal_size == state.terminal_size
                &&& then.cursor_on_terminal()
                &&& state.terminal_size.width > 0 ==> then.current_pos.x
                    <= state.terminal_size.width - 1
                &&& state.terminal_size.height > 0 ==> then.current_pos.y
                    <= state.terminal_size.height - 1
            },
{
    assert forall|k: int| 0 <= k <= events.len() implies {
        let then = #[trigger] state.after_events(events.take(k));
        &&& then.terminal_size == state.terminal_size
        &&& then.cursor_on_terminal()
    } by {
        lemma_cursor_on_terminal_after(state, events.take(k));
    }
}

/// The end of the law above: where the state is after all of `events`.
proof fn lemma_cursor_on_terminal_after(state: EditorState, events: Seq<Event>)
    requires
        state.cursor_on_terminal(),
        forall|i: int| 0 <= i < events.len() ==> !(#[trigger] events[i] is Resize),
    ensures
        state.after_events(events).terminal_size == state.terminal_size,
        state.after_events(events).cursor_on_terminal(),
    decreases events.len(),
{
    if events.len() > 0 {
        lemma_cursor_on_terminal_after(state, events.drop_last());
    }
}

/// Home puts the cursor in the first column and End in the last one, PageUp
/// in the top row and PageDown in the bottom one, wherever it stood and
/// whatever modifiers are held down. Nothing else changes.
pub proof fn lemma_jump_keys(state: EditorState, modifiers: KeyModifiers)
    ensures
        state.after_event(key(KeyCode::Home, modifiers)) == state.with_x(0),
        state.after_event(key(KeyCode::End, modifiers)) == state.with_x(
            state.terminal_size.spec_last_column() as int,
        ),
        state.after_event(key(KeyCode::PageUp, modifiers)) == state.with_y(0),
        state.after_event(key(KeyCode::PageDown, modifiers)) == state.with_y(
            state.terminal_size.spec_last_row() as int,
        ),
        state.after_event(key(KeyCode::Home, modifiers)).current_pos.x == 0,
        state.after_event(key(KeyCode::PageUp, modifiers)).current_pos.y == 0,
        state.terminal_size.width > 0 ==> state.after_event(
            key(KeyCode::End, modifiers),
        ).current_pos.x == state.terminal_size.width - 1,
        state.terminal_size.height > 0 ==> state.after_event(
            key(KeyCode::PageDown, modifiers),
        ).current_pos.y == state.terminal_size.height - 1,
{
}

/// At an edge of the terminal the arrow that points outwards changes nothing:
/// Left in the first column, Right in the last one, Up in the top row and
/// Down in the bottom one.
pub proof fn lemma_arrows_stop_at_edges(state: EditorState, modifiers: KeyModifiers)
    ensures
        state.current_pos.x == 0 ==> state.after_event(key(KeyCode::Left, modifiers)) == state,
        state.current_pos.x == state.terminal_size.spec_last_column() ==> state.after_event(
            key(KeyCode::Right, modifiers),
        ) == state,
        state.current_pos.y == 0 ==> state.after_event(key(KeyCode::Up, modifiers)) == state,
        state.current_pos.y == state.terminal_size.spec_last_row() ==> state.after_event(
            key(KeyCode::Down, modifiers),
        ) == state,
{
}

/// A cursor that a resize has left off the terminal comes back with the keys
/// that go towards the far edges: Right and End bring its column onto the
/// terminal, Down and PageDown its row. Left, Up, Home and PageUp never take
/// it further away.
pub proof fn lemma_cursor_comes_back(state: EditorState, modifiers: KeyModifiers)
    ensures
        state.after_event(key(KeyCode::Right, modifiers)).current_pos.x
            <= state.terminal_size.spec_last_column(),
        state.after_event(key(KeyCode::End, modifiers)).current_pos.x
            <= state.terminal_size.spec_last_column(),
        state.after_event(key(KeyCode::Down, modifiers)).current_pos.y
            <= state.terminal_size.spec_last_row(),
        state.after_event(key(KeyCode::PageDown, modifiers)).current_pos.y
            <= state.terminal_size.spec_last_row(),
        state.after_event(key(KeyCode::Left, modifiers)).current_pos.x <= state.current_pos.x,
        state.after_event(key(KeyCode::Home, modifiers)).current_pos.x <= state.current_pos.x,
        state.after_event(key(KeyCode::Up, modifiers)).current_pos.y <= state.current_pos.y,
        state.after_event(key(KeyCode::PageUp, modifiers)).current_pos.y <= state.current_pos.y,
{
}

/// The quit combination raises the quit flag, wherever the cursor stands, and
/// changes nothing else. The frame that shows the state it leaves is the
/// farewell: an empty screen with the farewell text at the top left.
pub proof fn lemma_quit_raises_flag(state: EditorState, combination: KeyEvent)
    requires
        combination.spec_is_quit(),
    ensures
        state.after_event(Event::Key(combination)) == (EditorState { should_quit: true, ..state }),
        state.after_event(Event::Key(combination)).frame() == seq![
            CommandView::HideCursor,
            CommandView::ClearScreen,
            CommandView::MoveCursorTo(origin()),
            CommandView::Print(farewell()),
            CommandView::MoveCursorTo(state.current_pos),
            CommandView::ShowCursor,
            CommandView::Execute,
        ],
{
}

/// A frame reaches the terminal in one piece: the command that hands it over
/// is its last one, and it holds no other. Until then the cursor is hidden:
/// the frame starts by hiding it and shows it again just before the end.
pub proof fn lemma_frame_is_handed_over_once(state: EditorState)
    ensures
        state.frame().len() >= 5,
        state.frame().first() == CommandView::HideCursor,
        state.frame()[state.frame().len() - 2] == CommandView::ShowCursor,
        state.frame().last() == CommandView::Execute,
        forall|i: int|
            0 <= i < state.frame().len() - 1 ==> !(#[trigger] state.frame()[i] is Execute),
        forall|i: int|
            0 < i < state.frame().len() - 2 ==> !(#[trigger] state.frame()[i] is HideCursor)
                && !(state.frame()[i] is ShowCursor),
{
    lemma_rows_erase_and_print(
        state.lines,
        state.terminal_size,
        state.terminal_size.height as nat,
    );
}

/// Once the quit flag is raised no event lowers it: a quitting editor stays
/// quitting.
pub proof fn lemma_quitting_is_final(state: EditorState, events: Seq<Event>)
    requires
        state.should_quit,
    ensures
        state.after_events(events).should_quit,
    decreases events.len(),
{
    if events.len() > 0 {
        lemma_quitting_is_final(state, events.drop_last());
    }
}

/// Only the quit combination raises the quit flag.
pub proof fn lemma_only_quit_raises_flag(state: EditorState, event: Event)
    requires
        !state.should_quit,
        state.after_event(event).should_quit,
    ensures
        event matches Event::Key(combination) && combination.spec_is_quit(),
{
}

/// A resize makes the size reported the terminal size at once, whatever the
/// size was before, and changes nothing else: the cursor stays where it is.
pub proof fn lemma_resize_sets_size(state: EditorState, width: u16, height: u16)
    ensures
        state.after_event(Event::Resize(width, height)) == (EditorState {
            terminal_size: Size { width: width as usize, height: height as usize },
            ..state
        }),
        state.after_event(Event::Resize(width, height)).terminal_size.width == width,
        state.after_event(Event::Resize(width, height)).terminal_size.height == height,
{
}

} // verus!
