//! The screen driver: positions, sizes, drawing commands and the handle that
//! queues them until they are flushed.

use vstd::prelude::*;

verus! {

/// A cell of the screen, zero-based, with the origin at the top left.
#[derive(Clone, Copy, Debug, PartialEq, Eq, Structural)]
pub struct Position {
    /// The column.
    pub x: u16,
    /// The row.
    pub y: u16,
}

/// The dimensions of the screen, in cells.
#[derive(Clone, Copy, Debug, PartialEq, Eq, Structural)]
pub struct Size {
    /// The number of columns.
    pub width: u16,
    /// The number of rows.
    pub height: u16,
}

impl Position {
    /// Moves this position by `relative`, column by column and row by row.
    pub fn relative(&mut self, relative: Position)
        requires
            old(self).x + relative.x <= u16::MAX,
            old(self).y + relative.y <= u16::MAX,
        ensures
            final(self).x == old(self).x + relative.x,
            final(self).y == old(self).y + relative.y,
    {
        self.x = self.x + relative.x;
        self.y = self.y + relative.y;
    }
}

/// Why a request to the terminal device came to nothing.
#[derive(Clone, Copy, Debug, PartialEq, Eq, Structural)]
pub enum TerminalError {
    /// Raw mode could not be switched on or off.
    RawMode,
    /// Reading, writing or flushing failed.
    Io,
}

/// One drawing command, as the driver queues it.
#[derive(Debug, PartialEq, Eq)]
pub enum Command {
    /// Clear the whole screen.
    ClearScreen,
    /// Clear the line the cursor is on.
    ClearLine,
    /// Move the cursor to a cell.
    MoveTo(Position),
    /// Move the cursor right by a number of columns.
    MoveRight(u16),
    /// Hide the cursor.
    HideCursor,
    /// Show the cursor.
    ShowCursor,
    /// Write text at the cursor.
    Print(String),
}

/// What a [`Command`] says, with its text as a sequence of characters.
#[verifier::ext_equal]
pub enum CommandView {
    ClearScreen,
    ClearLine,
    MoveTo(Position),
    MoveRight(u16),
    HideCursor,
    ShowCursor,
    Print(Seq<char>),
}

impl View for Command {
    type V = CommandView;

    open spec fn view(&self) -> CommandView {
        match *self {
            Command::ClearScreen => CommandView::ClearScreen,
            Command::ClearLine => CommandView::ClearLine,
            Command::MoveTo(position) => CommandView::MoveTo(position),
            Command::MoveRight(columns) => CommandView::MoveRight(columns),
            Command::HideCursor => CommandView::HideCursor,
            Command::ShowCursor => CommandView::ShowCursor,
            Command::Print(text) => CommandView::Print(text@),
        }
    }
}

impl Clone for Command {
    fn clone(&self) -> (copy: Command)
        ensures
            copy@ == self@,
    {
        match self {
            Command::ClearScreen => Command::ClearScreen,
            Command::ClearLine => Command::ClearLine,
            Command::MoveTo(position) => Command::MoveTo(*position),
            Command::MoveRight(columns) => Command::MoveRight(*columns),
            Command::HideCursor => Command::HideCursor,
            Command::ShowCursor => Command::ShowCursor,
            Command::Print(text) => Command::Print(text.clone()),
        }
    }
}

/// The views of a run of commands, in order.
pub open spec fn commands_view(commands: Seq<Command>) -> Seq<CommandView> {
    commands.map_values(|command: Command| command@)
}

/// What `initialize` queues: clear the screen, go to the origin, show the
/// cursor.
pub open spec fn opening_commands() -> Seq<CommandView> {
    seq![
        CommandView::ClearScreen,
        CommandView::MoveTo(Position { x: 0, y: 0 }),
        CommandView::ShowCursor,
    ]
}

/// The handle of the terminal device, as far as the editor knows it: whether
/// raw mode is on, the dimensions that the host reported last, and the
/// commands queued since the last flush. The handle touches no device: it
/// is told what the host has done, and keeps what the host is to write.
pub struct Terminal {
    raw_mode: bool,
    size: Size,
    queue: Vec<Command>,
}

/// The state of a [`Terminal`].
#[verifier::ext_equal]
pub struct TerminalView {
    /// Raw mode is on, as far as the host has confirmed: `initialize` has
    /// recorded that it was entered, and `terminate` has not recorded that it
    /// was left.
    pub raw_mode: bool,
    /// The dimensions reported last.
    pub size: Size,
    /// The commands queued and not yet flushed, oldest first.
    pub queue: Seq<CommandView>,
}

impl View for Terminal {
    type V = TerminalView;

    closed spec fn view(&self) -> TerminalView {
        TerminalView {
            raw_mode: self.raw_mode,
            size: self.size,
            queue: commands_view(self.queue@),
        }
    }
}

impl TerminalView {
    /// This state with `commands` queued behind what is queued already.
    pub open spec fn queued(self, commands: Seq<CommandView>) -> TerminalView {
        TerminalView { queue: self.queue + commands, ..self }
    }

    /// This state after `initialize`: raw mode is on, and the opening
    /// commands are queued.
    pub open spec fn initialized(self) -> TerminalView {
        (TerminalView { raw_mode: true, ..self }).queued(opening_commands())
    }

    /// This state after `terminate`: raw mode is off.
    pub open spec fn terminated(self) -> TerminalView {
        TerminalView { raw_mode: false, ..self }
    }

    /// This state after a flush: nothing is queued.
    pub open spec fn flushed(self) -> TerminalView {
        TerminalView { queue: Seq::empty(), ..self }
    }
}

impl Terminal {
    /// A handle in cooked mode, of the given dimensions, with nothing queued.
    pub fn new(size: Size) -> (terminal: Terminal)
        ensures
            terminal@ == (TerminalView { raw_mode: false, size, queue: Seq::empty() }),
    {
        Terminal { raw_mode: false, size, queue: Vec::new() }
    }

    /// Records the dimensions that the device has now.
    pub fn resize(&mut self, size: Size)
        ensures
            final(self)@ == (TerminalView { size, ..old(self)@ }),
    {
        self.size = size;
    }

    /// The dimensions of the screen, as reported last.
    pub fn size(&self) -> (size: Size)
        ensures
            size == self@.size,
    {
        self.size
    }

    /// Whether raw mode is on, as far as the host has confirmed.
    pub fn is_raw_mode(&self) -> (raw_mode: bool)
        ensures
            raw_mode == self@.raw_mode,
    {
        self.raw_mode
    }

    /// The commands queued and not yet flushed, oldest first.
    pub fn queue(&self) -> (queue: &Vec<Command>)
        ensures
            commands_view(queue@) == self@.queue,
    {
        &self.queue
    }

    /// Queues one command behind the others.
    fn queue_command(&mut self, command: Command)
        ensures
            final(self)@ == old(self)@.queued(seq![command@]),
    {
        self.queue.push(command);
    }

    /// Records that raw mode has been entered, and queues the opening
    /// commands: clear the screen, go to the origin, show the cursor.
    pub fn initialize(&mut self)
        ensures
            final(self)@ == old(self)@.initialized(),
    {
        self.raw_mode = true;
        self.clear_screen();
        self.move_cursor_to(Position { x: 0, y: 0 });
        self.queue_command(Command::ShowCursor);
    }

    /// Records that raw mode has been left. What is queued stays queued.
    pub fn terminate(&mut self)
        ensures
            final(self)@ == old(self)@.terminated(),
    {
        self.raw_mode = false;
    }

    /// Queues a command that clears the whole screen.
    pub fn clear_screen(&mut self)
        ensures
            final(self)@ == old(self)@.queued(seq![CommandView::ClearScreen]),
    {
        self.queue_command(Command::ClearScreen);
    }

    /// Queues a command that clears the line the cursor is on.
    pub fn clear_line(&mut self)
        ensures
            final(self)@ == old(self)@.queued(seq![CommandView::ClearLine]),
    {
        self.queue_command(Command::ClearLine);
    }

    /// Queues a move of the cursor to `position`.
    pub fn move_cursor_to(&mut self, position: Position)
        ensures
            final(self)@ == old(self)@.queued(seq![CommandView::MoveTo(position)]),
    {
        self.queue_command(Command::MoveTo(position));
    }

    /// Queues a move of the cursor by `number` columns to the right.
    pub fn move_cursor_right(&mut self, number: u16)
        ensures
            final(self)@ == old(self)@.queued(seq![CommandView::MoveRight(number)]),
    {
        self.queue_command(Command::MoveRight(number));
    }

    /// Queues a command that hides the cursor.
    pub fn hide_cursor(&mut self)
        ensures
            final(self)@ == old(self)@.queued(seq![CommandView::HideCursor]),
    {
        self.queue_command(Command::HideCursor);
    }

    /// Queues a command that shows the cursor.
    pub fn show_cursor(&mut self)
        ensures
            final(self)@ == old(self)@.queued(seq![CommandView::ShowCursor]),
    {
        self.queue_command(Command::ShowCursor);
    }

    /// Queues `string` to be written at the cursor.
    pub fn print(&mut self, string: &str)
        ensures
            final(self)@ == old(self)@.queued(seq![CommandView::Print(string@)]),
    {
        self.queue_command(Command::Print(String::from_str(string)));
    }

    /// Flushes: hands out everything queued, oldest first, for the host to
    /// write as one batch, and leaves the queue empty.
    pub fn execute(&mut self) -> (batch: Vec<Command>)
        ensures
            commands_view(batch@) == old(self)@.queue,
            final(self)@ == old(self)@.flushed(),
    {
        let mut batch: Vec<Command> = Vec::new();
        core::mem::swap(&mut self.queue, &mut batch);
        batch
    }
}

} // verus!
