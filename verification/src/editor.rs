//! The editor: its state, the dispatch of input, and the redraw of the
//! screen.

use vstd::prelude::*;
use crate::banner::{banner_text, welcome_banner, NAME, VERSION};
use crate::buffer::{Buffer, frame, lemma_rows_below_text, lemma_rows_split, rows};
use crate::input::{Binding, Input};
use crate::location::Location;
use crate::terminal::{Command, CommandView, Position, Size, Terminal, TerminalError, TerminalView,
    commands_view};

verus! {

/// Where a session stands: which request the host has been handed last.
#[derive(Clone, Copy, Debug, PartialEq, Eq, Structural)]
pub enum Phase {
    /// Nothing has been asked of the host.
    Idle,
    /// The host has been asked to enter raw mode.
    Entering,
    /// The host has been asked to write and flush a redraw.
    Drawing,
    /// The host has been asked to read the next input event.
    Reading,
    /// The host has been asked to leave raw mode.
    Leaving,
    /// The host has been told to exit.
    Finished,
}

/// What the host reports of the request it was handed last.
#[derive(Clone, Copy, Debug, PartialEq, Eq, Structural)]
pub enum Event {
    /// The request was carried out. Answers `EnterRawMode`, `Flush` and
    /// `LeaveRawMode`.
    Done,
    /// An input event arrived. Answers `Read`.
    Input(Input),
    /// The request failed.
    Failed(TerminalError),
}

/// What the host is to do next.
#[derive(Debug, PartialEq, Eq)]
pub enum Action {
    /// Put the terminal into raw mode.
    EnterRawMode,
    /// Write these commands to the terminal, in order, and flush.
    Flush(Vec<Command>),
    /// Wait for the next input event.
    Read,
    /// Put the terminal back into cooked mode.
    LeaveRawMode,
    /// Stop, with this result.
    Exit(Result<(), TerminalError>),
}

/// What an [`Action`] says, with its commands by their views.
#[verifier::ext_equal]
pub enum ActionView {
    EnterRawMode,
    Flush(Seq<CommandView>),
    Read,
    LeaveRawMode,
    Exit(Result<(), TerminalError>),
}

impl View for Action {
    type V = ActionView;

    open spec fn view(&self) -> ActionView {
        match *self {
            Action::EnterRawMode => ActionView::EnterRawMode,
            Action::Flush(commands) => ActionView::Flush(commands_view(commands@)),
            Action::Read => ActionView::Read,
            Action::LeaveRawMode => ActionView::LeaveRawMode,
            Action::Exit(result) => ActionView::Exit(result),
        }
    }
}

/// How one turn of the loop ends: with the next request to the host, with
/// the loop over after a quit (`Ok(None)`), or with the loop broken by a
/// failure.
pub open spec fn turn_view(turn: Result<Option<Action>, TerminalError>) -> Result<
    Option<ActionView>,
    TerminalError,
> {
    match turn {
        Ok(Some(action)) => Ok(Some(action@)),
        Ok(None) => Ok(None),
        Err(error) => Err(error),
    }
}

/// The editor: the cursor, the document, the quit flag, the column at which
/// the text starts, and where its session stands.
pub struct Editor {
    should_quit: bool,
    cursor_location: Location,
    buffer: Buffer,
    lower_bound: u16,
    phase: Phase,
    failure: Option<TerminalError>,
}

/// The state of an [`Editor`].
#[verifier::ext_equal]
pub struct EditorView {
    /// The editor has been asked to quit.
    pub should_quit: bool,
    /// Where the cursor is in the document.
    pub cursor: Location,
    /// The lines of the document.
    pub lines: Seq<Seq<char>>,
    /// The leftmost column that the cursor can reach.
    pub lower_bound: u16,
    /// Where the session stands.
    pub phase: Phase,
    /// The failure that ended the session, if one did.
    pub failure: Option<TerminalError>,
}

impl View for Editor {
    type V = EditorView;

    closed spec fn view(&self) -> EditorView {
        EditorView {
            should_quit: self.should_quit,
            cursor: self.cursor_location,
            lines: self.buffer@,
            lower_bound: self.lower_bound,
            phase: self.phase,
            failure: self.failure,
        }
    }
}

/// The state after `input` has been dispatched on a screen of dimensions
/// `size`: control with `q` raises the quit flag; the arrows, enter and a
/// written character move the cursor within the screen; anything else
/// changes nothing.
pub open spec fn dispatched(editor: EditorView, size: Size, input: Input) -> EditorView {
    match input.binding() {
        Some(Binding::Quit) => EditorView { should_quit: true, ..editor },
        Some(Binding::Down) => EditorView { cursor: editor.cursor.down(size.height), ..editor },
        Some(Binding::Up) => EditorView { cursor: editor.cursor.up(), ..editor },
        Some(Binding::Right) => EditorView { cursor: editor.cursor.right(size.width), ..editor },
        Some(Binding::Left) => EditorView {
            cursor: editor.cursor.left(editor.lower_bound),
            ..editor
        },
        Some(Binding::Insert(c)) => EditorView {
            cursor: editor.cursor.right(size.width),
            ..editor
        },
        Some(Binding::NewLine) => EditorView {
            cursor: editor.cursor.next_line(size.height, editor.lower_bound),
            ..editor
        },
        None => editor,
    }
}

/// What the dispatch of `input` queues: the character, for a written
/// character, and nothing otherwise.
pub open spec fn echoed(input: Input) -> Seq<CommandView> {
    match input.binding() {
        Some(Binding::Insert(c)) => seq![CommandView::Print(seq![c])],
        _ => Seq::empty(),
    }
}

/// The farewell that the quitting editor prints.
pub open spec fn farewell() -> Seq<char> {
    "Goodbye.\r\n"@
}

/// The redraw of a quitting editor: clear the screen and say goodbye, with
/// the cursor hidden meanwhile.
pub open spec fn quit_commands() -> Seq<CommandView> {
    seq![
        CommandView::HideCursor,
        CommandView::ClearScreen,
        CommandView::Print(farewell()),
        CommandView::ShowCursor,
    ]
}

/// The redraw of a running editor: every row of the screen, then the cursor
/// back at its place, with the cursor hidden meanwhile.
pub open spec fn redraw_commands(editor: EditorView, size: Size) -> Seq<CommandView> {
    seq![CommandView::HideCursor] + frame(editor.lines, size) + seq![
        CommandView::MoveTo(editor.cursor.to_position()),
        CommandView::ShowCursor,
    ]
}

/// What one refresh of the screen queues.
pub open spec fn refresh_commands(editor: EditorView, size: Size) -> Seq<CommandView> {
    if editor.should_quit {
        quit_commands()
    } else {
        redraw_commands(editor, size)
    }
}

/// One turn of the loop. While an input event is awaited, the event is
/// dispatched and the screen redrawn. While a redraw is being flushed, its
/// completion asks for the next event, or ends the loop if the editor is
/// quitting. A failure, or a report that does not answer the request, breaks
/// the loop. Outside the loop, the turn starts it with a first redraw.
pub open spec fn loop_step(editor: EditorView, terminal: TerminalView, event: Event) -> (
    EditorView,
    TerminalView,
    Result<Option<ActionView>, TerminalError>,
) {
    let flushed = terminal.flushed();
    let stopped = EditorView { phase: Phase::Idle, ..editor };
    match editor.phase {
        Phase::Reading => match event {
            Event::Input(input) => {
                let next = dispatched(editor, terminal.size, input);
                (
                    EditorView { phase: Phase::Drawing, ..next },
                    flushed,
                    Ok(
                        Some(
                            ActionView::Flush(
                                terminal.queue + echoed(input) + refresh_commands(
                                    next,
                                    terminal.size,
                                ),
                            ),
                        ),
                    ),
                )
            },
            Event::Failed(error) => (stopped, terminal, Err(error)),
            Event::Done => (stopped, terminal, Err(TerminalError::Io)),
        },
        Phase::Drawing => match event {
            Event::Done => if editor.should_quit {
                (stopped, terminal, Ok(None))
            } else {
                (
                    EditorView { phase: Phase::Reading, ..editor },
                    terminal,
                    Ok(Some(ActionView::Read)),
                )
            },
            Event::Failed(error) => (stopped, terminal, Err(error)),
            Event::Input(_) => (stopped, terminal, Err(TerminalError::Io)),
        },
        _ => (
            EditorView { phase: Phase::Drawing, ..editor },
            flushed,
            Ok(Some(ActionView::Flush(terminal.queue + refresh_commands(editor, terminal.size)))),
        ),
    }
}

/// The result that a session ends with.
pub open spec fn outcome(failure: Option<TerminalError>) -> Result<(), TerminalError> {
    match failure {
        Some(error) => Err(error),
        None => Ok(()),
    }
}

/// Leaving: the failure that ended the loop, if one did, is kept for the
/// exit, and the host is asked to restore cooked mode.
pub open spec fn leaving(
    editor: EditorView,
    terminal: TerminalView,
    failure: Option<TerminalError>,
) -> (EditorView, TerminalView, ActionView) {
    (EditorView { phase: Phase::Leaving, failure, ..editor }, terminal, ActionView::LeaveRawMode)
}

/// The failure that a session exits with, once the host has answered the
/// request for cooked mode. A failure kept from before stays: restoring
/// cooked mode is cleanup, and how it went never takes the place of what
/// broke the session. Only where nothing is kept does the answer decide: a
/// failed request is the failure, and so is an answer out of turn.
pub open spec fn exit_failure(kept: Option<TerminalError>, event: Event) -> Option<
    TerminalError,
> {
    match kept {
        Some(error) => Some(error),
        None => match event {
            Event::Done => None,
            Event::Failed(error) => Some(error),
            Event::Input(_) => Some(TerminalError::RawMode),
        },
    }
}

/// The terminal once the host has answered the request for cooked mode: out
/// of raw mode if the host reports that it is done, and as before if not.
pub open spec fn left(terminal: TerminalView, event: Event) -> TerminalView {
    match event {
        Event::Done => terminal.terminated(),
        _ => terminal,
    }
}

/// What follows a turn of the loop: its request, or leaving when the loop is
/// over.
pub open spec fn settled(
    turn: (EditorView, TerminalView, Result<Option<ActionView>, TerminalError>),
) -> (EditorView, TerminalView, ActionView) {
    match turn.2 {
        Ok(Some(action)) => (turn.0, turn.1, action),
        Ok(None) => leaving(turn.0, turn.1, None),
        Err(error) => leaving(turn.0, turn.1, Some(error)),
    }
}

/// One step of a session. An idle editor asks for raw mode. Once raw mode is
/// on, the terminal is initialized and the loop runs, turn by turn. When the
/// loop is over, or raw mode could not be entered, the editor asks for cooked
/// mode, and after the answer it tells the host to exit: with the failure
/// that ended the loop if one did, else with the failure to restore cooked
/// mode if that failed, else with success. A finished editor repeats its
/// exit.
pub open spec fn session_step(editor: EditorView, terminal: TerminalView, event: Event) -> (
    EditorView,
    TerminalView,
    ActionView,
) {
    match editor.phase {
        Phase::Idle => (
            EditorView { phase: Phase::Entering, failure: None, ..editor },
            terminal,
            ActionView::EnterRawMode,
        ),
        Phase::Entering => match event {
            Event::Done => settled(loop_step(editor, terminal.initialized(), event)),
            Event::Failed(error) => leaving(editor, terminal, Some(error)),
            Event::Input(_) => leaving(editor, terminal, Some(TerminalError::RawMode)),
        },
        Phase::Drawing | Phase::Reading => settled(loop_step(editor, terminal, event)),
        Phase::Leaving => {
            let failure = exit_failure(editor.failure, event);
            (
                EditorView { phase: Phase::Finished, failure, ..editor },
                left(terminal, event),
                ActionView::Exit(outcome(failure)),
            )
        },
        Phase::Finished => (editor, terminal, ActionView::Exit(outcome(editor.failure))),
    }
}

/// Calls `char::to_string` of std. Taken on trust from its documentation:
/// the text that comes back holds the character `c` and nothing else.
#[verifier::external_body]
fn char_to_string(c: char) -> (text: String)
    ensures
        text@ == seq![c],
{
    c.to_string()
}

impl Editor {
    /// An editor on `buffer` whose text starts at column `lower_bound`, with
    /// the cursor at the start of the first line.
    pub fn new(buffer: Buffer, lower_bound: u16) -> (editor: Editor)
        ensures
            editor@ == (EditorView {
                should_quit: false,
                cursor: Location { line: 0, column: lower_bound as usize },
                lines: buffer@,
                lower_bound,
                phase: Phase::Idle,
                failure: None,
            }),
            editor@.cursor.fits_screen(),
    {
        Editor {
            should_quit: false,
            cursor_location: Location { line: 0, column: lower_bound as usize },
            buffer,
            lower_bound,
            phase: Phase::Idle,
            failure: None,
        }
    }

    /// The editor as it starts: three lines of sample text, the cursor at
    /// the origin, and every column of the screen within its reach.
    pub fn default() -> (editor: Editor)
        ensures
            editor@ == (EditorView {
                should_quit: false,
                cursor: Location::origin(),
                lines: seq!["sdaf"@, "line 2"@, "line 3"@],
                lower_bound: 0,
                phase: Phase::Idle,
                failure: None,
            }),
            editor@.cursor.fits_screen(),
    {
        let mut content: Vec<String> = Vec::new();
        content.push(String::from_str("sdaf"));
        content.push(String::from_str("line 2"));
        content.push(String::from_str("line 3"));
        let buffer = Buffer::new(content);
        Editor::new(buffer, 0)
    }

    /// Whether the editor has been asked to quit.
    pub fn should_quit(&self) -> (should_quit: bool)
        ensures
            should_quit == self@.should_quit,
    {
        self.should_quit
    }

    /// Where the cursor is in the document.
    pub fn cursor_location(&self) -> (cursor: Location)
        ensures
            cursor == self@.cursor,
    {
        self.cursor_location
    }

    /// The document.
    pub fn buffer(&self) -> (buffer: &Buffer)
        ensures
            buffer@ == self@.lines,
    {
        &self.buffer
    }

    /// The leftmost column that the cursor can reach.
    pub fn lower_bound(&self) -> (lower_bound: u16)
        ensures
            lower_bound == self@.lower_bound,
    {
        self.lower_bound
    }

    /// Where the session stands.
    pub fn phase(&self) -> (phase: Phase)
        ensures
            phase == self@.phase,
    {
        self.phase
    }

    /// The failure that ended the session, if one did.
    pub fn failure(&self) -> (failure: Option<TerminalError>)
        ensures
            failure == self@.failure,
    {
        self.failure
    }

    /// Dispatches one input event: updates the quit flag and the cursor as
    /// the key press is bound, within the screen as `terminal` knows it, and
    /// queues a written character. An event bound to nothing changes
    /// nothing.
    pub fn evaluate(&mut self, terminal: &mut Terminal, input: &Input)
        ensures
            final(self)@ == dispatched(old(self)@, old(terminal)@.size, *input),
            final(terminal)@ == old(terminal)@.queued(echoed(*input)),
            input.binding() is None ==> final(self)@ == old(self)@ && final(terminal)@ == old(
                terminal,
            )@,
    {
        let size = terminal.size();
        match input.binding() {
            Some(Binding::Quit) => {
                self.should_quit = true;
            },
            Some(Binding::Down) => {
                self.cursor_location = self.cursor_location.down(size.height);
            },
            Some(Binding::Up) => {
                self.cursor_location = self.cursor_location.up();
            },
            Some(Binding::Right) => {
                self.cursor_location = self.cursor_location.right(size.width);
            },
            Some(Binding::Left) => {
                self.cursor_location = self.cursor_location.left(self.lower_bound);
            },
            Some(Binding::Insert(c)) => {
                terminal.print(char_to_string(c).as_str());
                self.cursor_location = self.cursor_location.right(size.width);
            },
            Some(Binding::NewLine) => {
                self.cursor_location = self.cursor_location.next_line(
                    size.height,
                    self.lower_bound,
                );
            },
            None => {},
        }
    }

    /// Queues the drawing of the rows from `first` to the bottom of the
    /// screen, as they show below the text: the welcome banner on the row a
    /// third of the way down, a tilde on every other row.
    pub fn draw_rows(terminal: &mut Terminal, first: u16)
        ensures
            final(terminal)@ == old(terminal)@.queued(
                rows(
                    Seq::empty(),
                    old(terminal)@.size,
                    first as int,
                    old(terminal)@.size.height as int,
                ),
            ),
    {
        let size = terminal.size();
        let ghost before = terminal@;
        let mut current_row: u16 = first;
        while current_row < size.height
            invariant
                first <= current_row,
                current_row <= size.height || current_row == first,
                before.size == size,
                terminal@ == before.queued(
                    rows(Seq::empty(), size, first as int, current_row as int),
                ),
            decreases size.height - current_row,
        {
            terminal.move_cursor_to(Position { x: 0, y: current_row });
            if current_row == size.height / 3 {
                Self::draw_welcome_message(terminal);
            } else {
                Self::draw_empty_row(terminal);
            }
            current_row = current_row + 1;
        }
    }

    /// Queues the welcome banner, made for the width of the screen.
    pub fn draw_welcome_message(terminal: &mut Terminal)
        ensures
            final(terminal)@ == old(terminal)@.queued(
                seq![
                    CommandView::Print(
                        banner_text(NAME@, VERSION@, old(terminal)@.size.width as nat),
                    ),
                ],
            ),
    {
        let width = terminal.size().width;
        let welcome_message = welcome_banner(NAME, VERSION, width);
        terminal.print(welcome_message.as_str());
    }

    /// Queues the tilde of a row that shows nothing.
    pub fn draw_empty_row(terminal: &mut Terminal)
        ensures
            final(terminal)@ == old(terminal)@.queued(seq![CommandView::Print(seq!['~'])]),
    {
        proof {
            reveal_strlit("~");
            assert("~"@ =~= seq!['~']);
        }
        terminal.print("~");
    }

    /// Redraws the screen and flushes. A quitting editor clears the screen
    /// and says goodbye; a running editor draws every row and puts the cursor
    /// back at its place. Either way the cursor is hidden first and shown
    /// last, and the batch handed out holds what was queued before, then the
    /// redraw.
    pub fn refresh_screen(&mut self, terminal: &mut Terminal) -> (batch: Vec<Command>)
        ensures
            final(self)@ == old(self)@,
            commands_view(batch@) == old(terminal)@.queue + refresh_commands(
                old(self)@,
                old(terminal)@.size,
            ),
            final(terminal)@ == old(terminal)@.flushed(),
    {
        let size = terminal.size();
        terminal.hide_cursor();
        if self.should_quit {
            terminal.clear_screen();
            terminal.print("Goodbye.\r\n");
            terminal.show_cursor();
        } else {
            let length: usize = self.buffer.len();
            let first: u16 = if length < size.height as usize {
                length as u16
            } else {
                size.height
            };
            self.buffer.render(terminal);
            Self::draw_rows(terminal, first);
            terminal.move_cursor_to(self.cursor_location.to_position());
            terminal.show_cursor();
            proof {
                lemma_rows_below_text(self@.lines, size, first as int, size.height as int);
                lemma_rows_split(self@.lines, size, 0, first as int, size.height as int);
            }
        }
        terminal.execute()
    }

    /// Takes one turn of the loop on what the host reports, and hands out the
    /// next request: `Flush` with the redraw after an input event or at the
    /// start, `Read` after a flush. `Ok(None)` says that the loop is over
    /// because the editor quits, an error that it is broken.
    pub fn repl(&mut self, terminal: &mut Terminal, event: Event) -> (turn: Result<
        Option<Action>,
        TerminalError,
    >)
        ensures
            (final(self)@, final(terminal)@, turn_view(turn)) == loop_step(
                old(self)@,
                old(terminal)@,
                event,
            ),
    {
        match self.phase {
            Phase::Reading => match event {
                Event::Input(input) => {
                    self.evaluate(terminal, &input);
                    let batch = self.refresh_screen(terminal);
                    self.phase = Phase::Drawing;
                    Ok(Some(Action::Flush(batch)))
                },
                Event::Failed(error) => {
                    self.phase = Phase::Idle;
                    Err(error)
                },
                Event::Done => {
                    self.phase = Phase::Idle;
                    Err(TerminalError::Io)
                },
            },
            Phase::Drawing => match event {
                Event::Done => if self.should_quit {
                    self.phase = Phase::Idle;
                    Ok(None)
                } else {
                    self.phase = Phase::Reading;
                    Ok(Some(Action::Read))
                },
                Event::Failed(error) => {
                    self.phase = Phase::Idle;
                    Err(error)
                },
                Event::Input(_) => {
                    self.phase = Phase::Idle;
                    Err(TerminalError::Io)
                },
            },
            _ => {
                let batch = self.refresh_screen(terminal);
                self.phase = Phase::Drawing;
                Ok(Some(Action::Flush(batch)))
            },
        }
    }

    /// Leaves the session: keeps `failure` for the exit and asks the host
    /// for cooked mode.
    fn leave(&mut self, terminal: &mut Terminal, failure: Option<TerminalError>) -> (action: Action)
        ensures
            (final(self)@, final(terminal)@, action@) == leaving(
                old(self)@,
                old(terminal)@,
                failure,
            ),
    {
        self.phase = Phase::Leaving;
        self.failure = failure;
        Action::LeaveRawMode
    }

    /// Goes on after a turn of the loop: with its request, or by leaving.
    fn settle(
        &mut self,
        terminal: &mut Terminal,
        turn: Result<Option<Action>, TerminalError>,
    ) -> (action: Action)
        ensures
            (final(self)@, final(terminal)@, action@) == settled(
                (old(self)@, old(terminal)@, turn_view(turn)),
            ),
    {
        match turn {
            Ok(Some(action)) => action,
            Ok(None) => self.leave(terminal, None),
            Err(error) => self.leave(terminal, Some(error)),
        }
    }

    /// Takes one step of the session on what the host reports of the last
    /// request, and hands out the next request. The first call starts the
    /// session, whatever it is given; `Exit` ends it, with the first failure
    /// of the session if there was one.
    pub fn run(&mut self, terminal: &mut Terminal, event: Event) -> (action: Action)
        ensures
            (final(self)@, final(terminal)@, action@) == session_step(
                old(self)@,
                old(terminal)@,
                event,
            ),
    {
        match self.phase {
            Phase::Idle => {
                self.phase = Phase::Entering;
                self.failure = None;
                Action::EnterRawMode
            },
            Phase::Entering => match event {
                Event::Done => {
                    terminal.initialize();
                    let turn = self.repl(terminal, event);
                    self.settle(terminal, turn)
                },
                Event::Failed(error) => self.leave(terminal, Some(error)),
                Event::Input(_) => self.leave(terminal, Some(TerminalError::RawMode)),
            },
            Phase::Drawing | Phase::Reading => {
                let turn = self.repl(terminal, event);
                self.settle(terminal, turn)
            },
            Phase::Leaving => {
                let failure = match self.failure {
                    Some(error) => Some(error),
                    None => match event {
                        Event::Done => None,
                        Event::Failed(error) => Some(error),
                        Event::Input(_) => Some(TerminalError::RawMode),
                    },
                };
                match event {
                    Event::Done => terminal.terminate(),
                    _ => {},
                }
                self.phase = Phase::Finished;
                self.failure = failure;
                Action::Exit(Self::result_of(failure))
            },
            Phase::Finished => Action::Exit(Self::result_of(self.failure)),
        }
    }

    /// The result that a session ends with.
    fn result_of(failure: Option<TerminalError>) -> (result: Result<(), TerminalError>)
        ensures
            result == outcome(failure),
    {
        match failure {
            Some(error) => Err(error),
            None => Ok(()),
        }
    }
}

} // verus!
