use term_editor::terminal::{Command, Position, Size, Terminal, TerminalError};

fn screen(width: u16, height: u16) -> Size {
    Size { width, height }
}

#[test]
fn relative_adds_columns_and_rows() {
    let mut position = Position { x: 3, y: 4 };
    position.relative(Position { x: 10, y: 20 });
    assert_eq!(position, Position { x: 13, y: 24 });
}

#[test]
fn relative_by_nothing_stays() {
    let mut position = Position { x: 7, y: 9 };
    position.relative(Position { x: 0, y: 0 });
    assert_eq!(position, Position { x: 7, y: 9 });
}

#[test]
fn relative_reaches_the_last_cell() {
    let mut position = Position { x: 65534, y: 0 };
    position.relative(Position { x: 1, y: 65535 });
    assert_eq!(position, Position { x: 65535, y: 65535 });
}

#[test]
fn new_terminal_is_cooked_and_empty() {
    let terminal = Terminal::new(screen(80, 24));
    assert!(!terminal.is_raw_mode());
    assert_eq!(terminal.size(), screen(80, 24));
    assert!(terminal.queue().is_empty());
}

#[test]
fn resize_changes_only_the_size() {
    let mut terminal = Terminal::new(screen(80, 24));
    terminal.hide_cursor();
    terminal.resize(screen(100, 40));
    assert_eq!(terminal.size(), screen(100, 40));
    assert!(!terminal.is_raw_mode());
    assert_eq!(terminal.queue(), &vec![Command::HideCursor]);
}

#[test]
fn initialize_enters_raw_mode_and_queues_the_opening() {
    let mut terminal = Terminal::new(screen(80, 24));
    terminal.initialize();
    assert!(terminal.is_raw_mode());
    assert_eq!(
        terminal.queue(),
        &vec![
            Command::ClearScreen,
            Command::MoveTo(Position { x: 0, y: 0 }),
            Command::ShowCursor,
        ]
    );
}

#[test]
fn terminate_leaves_raw_mode_and_keeps_the_queue() {
    let mut terminal = Terminal::new(screen(80, 24));
    terminal.initialize();
    terminal.terminate();
    assert!(!terminal.is_raw_mode());
    assert_eq!(terminal.queue().len(), 3);
    assert_eq!(terminal.size(), screen(80, 24));
}

#[test]
fn commands_queue_in_the_order_given() {
    let mut terminal = Terminal::new(screen(80, 24));
    terminal.clear_screen();
    terminal.clear_line();
    terminal.move_cursor_to(Position { x: 5, y: 6 });
    terminal.move_cursor_right(2);
    terminal.hide_cursor();
    terminal.show_cursor();
    terminal.print("hello");
    assert_eq!(
        terminal.queue(),
        &vec![
            Command::ClearScreen,
            Command::ClearLine,
            Command::MoveTo(Position { x: 5, y: 6 }),
            Command::MoveRight(2),
            Command::HideCursor,
            Command::ShowCursor,
            Command::Print(String::from("hello")),
        ]
    );
}

#[test]
fn queueing_does_not_touch_mode_or_size() {
    let mut terminal = Terminal::new(screen(12, 7));
    terminal.print("x");
    terminal.clear_line();
    assert!(!terminal.is_raw_mode());
    assert_eq!(terminal.size(), screen(12, 7));
}

#[test]
fn print_keeps_the_text_as_it_is() {
    let mut terminal = Terminal::new(screen(80, 24));
    terminal.print("");
    terminal.print("\r\n");
    terminal.print("tab\there");
    assert_eq!(
        terminal.queue(),
        &vec![
            Command::Print(String::new()),
            Command::Print(String::from("\r\n")),
            Command::Print(String::from("tab\there")),
        ]
    );
}

#[test]
fn execute_hands_out_the_queue_and_empties_it() {
    let mut terminal = Terminal::new(screen(80, 24));
    terminal.initialize();
    terminal.print("a");
    let batch = terminal.execute();
    assert_eq!(
        batch,
        vec![
            Command::ClearScreen,
            Command::MoveTo(Position { x: 0, y: 0 }),
            Command::ShowCursor,
            Command::Print(String::from("a")),
        ]
    );
    assert!(terminal.queue().is_empty());
    assert!(terminal.is_raw_mode());
    assert_eq!(terminal.size(), screen(80, 24));
}

#[test]
fn execute_twice_hands_out_nothing_the_second_time() {
    let mut terminal = Terminal::new(screen(80, 24));
    terminal.hide_cursor();
    assert_eq!(terminal.execute(), vec![Command::HideCursor]);
    assert_eq!(terminal.execute(), Vec::<Command>::new());
}

#[test]
fn nothing_shows_before_the_flush() {
    let mut terminal = Terminal::new(screen(80, 24));
    terminal.print("one");
    terminal.print("two");
    assert_eq!(terminal.queue().len(), 2);
    let batch = terminal.execute();
    assert_eq!(batch.len(), 2);
}

#[test]
fn terminal_errors_are_told_apart() {
    assert_ne!(TerminalError::RawMode, TerminalError::Io);
}

#[test]
fn a_cloned_command_equals_its_source() {
    let commands = vec![
        Command::ClearScreen,
        Command::ClearLine,
        Command::MoveTo(Position { x: 1, y: 2 }),
        Command::MoveRight(3),
        Command::HideCursor,
        Command::ShowCursor,
        Command::Print(String::from("text")),
    ];
    for command in commands.iter() {
        assert_eq!(&command.clone(), command);
    }
    assert_ne!(Command::Print(String::from("a")), Command::Print(String::from("b")));
    assert_ne!(Command::MoveRight(1), Command::MoveRight(2));
    assert_ne!(Command::HideCursor, Command::ShowCursor);
}
