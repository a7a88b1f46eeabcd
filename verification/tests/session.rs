use serial_console::keyboard_input::InputEvent;
use serial_console::keyboard_input::InputFailure;
use serial_console::keyboard_input::KeyCode;
use serial_console::keyboard_input::KeyPress;
use serial_console::menu::Action;
use serial_console::render::Command;
use serial_console::serial_connection::ConnectionState;
use serial_console::serial_connection::ErrorKind;
use serial_console::session::transmit_failed;
use serial_console::session::CursorTrack;
use serial_console::session::Flow;
use serial_console::session::Session;
use serial_console::session::Step;

type Read = Option<Result<InputEvent, InputFailure>>;

fn key(code: KeyCode) -> Read {
    Some(Ok(InputEvent::Key(KeyPress { code, control: false })))
}

fn toggle() -> Read {
    Some(Ok(InputEvent::Key(KeyPress { code: KeyCode::Char('t'), control: true })))
}

fn connected_at(position: (u16, u16)) -> Session {
    let mut session = Session::new();
    session.open_succeeded("COM3");
    session.start(position);
    session
}

fn framed(body: Vec<Command>) -> Vec<Command> {
    let mut commands = vec![Command::HideCursor];
    commands.extend(body);
    commands.push(Command::Flush);
    commands
}

fn opening(row: u16, columns: usize, text: &str) -> Vec<Command> {
    vec![
        Command::Print(String::from("\n")),
        Command::MoveTo(0, row),
        Command::MenuColors,
        Command::Print(" ".repeat(columns)),
        Command::MoveTo(0, row),
        Command::Print(String::from(": ")),
        Command::Print(String::from(text)),
        Command::ResetColors,
    ]
}

fn line(row: u16, columns: usize, text: &str) -> Vec<Command> {
    vec![
        Command::MoveTo(0, row),
        Command::ClearLine,
        Command::MenuColors,
        Command::Print(" ".repeat(columns)),
        Command::MoveTo(0, row),
        Command::Print(String::from(": ")),
        Command::Print(String::from(text)),
        Command::ResetColors,
    ]
}

fn type_text(session: &mut Session, text: &str) {
    for c in text.chars() {
        let step = session.on_key(&key(KeyCode::Char(c)), 10);
        assert_eq!(step.flow, Flow::Continue);
    }
}

fn rows_apart(session: &Session) {
    if session.menu().is_open {
        assert_ne!(session.device_cursor().1, session.menu().cursor_position.1);
        assert_eq!(session.device_cursor().1 + 1, session.menu().cursor_position.1);
    }
}

fn feed(session: &mut Session, bytes: &[u8]) -> Vec<Step> {
    let mut steps = Vec::new();
    for byte in bytes {
        assert!(session.accepts_device_byte(*byte));
        steps.push(session.on_device_byte(*byte, 10));
    }
    steps
}

#[test]
fn session_starts_connecting_with_a_closed_menu() {
    let session = Session::new();
    assert_eq!(
        session.connection(),
        ConnectionState::Connecting { attempts: 0, last_error: None, animation_frame: 0 }
    );
    assert!(!session.menu().is_open);
    assert_eq!(session.device_cursor(), (0, 0));
    assert_eq!(session.pending(), &Vec::<u8>::new());
}

#[test]
fn session_counts_failed_attempts_and_connects() {
    let mut session = Session::new();
    let first = session.open_failed("COM3");
    assert_eq!(first[0], Command::Log(String::from("Waiting for COM3")));
    let second = session.open_failed("COM3");
    assert_eq!(second[0], Command::MoveLeft(2));
    assert_eq!(
        session.connection(),
        ConnectionState::Connecting { attempts: 2, last_error: None, animation_frame: 1 }
    );
    let last = session.open_succeeded("COM3");
    assert_eq!(last[3], Command::Log(String::from("Connected to COM3")));
    assert_eq!(session.connection(), ConnectionState::Connected);
}

#[test]
fn start_puts_both_cursors_at_the_terminal_cursor() {
    let mut session = connected_at((4, 9));
    assert_eq!(session.device_cursor(), (4, 9));
    assert_eq!(session.menu().cursor_position, (4, 9));
    assert_eq!(session.active_cursor(), (4, 9));
    feed(&mut session, &[0x1B, b'[']);
    session.on_key(&toggle(), 10);
    session.start((1, 2));
    assert!(!session.menu().is_open);
    assert_eq!(session.pending(), &Vec::<u8>::new());
    assert_eq!(session.device_cursor(), (1, 2));
}

#[test]
fn key_is_transmitted_while_the_menu_is_closed() {
    let mut session = connected_at((0, 5));
    let step = session.on_key(&key(KeyCode::Char('a')), 10);
    assert_eq!(step.commands, framed(vec![Command::Transmit(vec![0x61])]));
    assert_eq!(step.track, CursorTrack::Neither);
    assert_eq!(step.flow, Flow::Continue);
    let step = session.on_key(&key(KeyCode::Left), 10);
    assert_eq!(step.commands, framed(vec![Command::Transmit(vec![0x1B, b'[', b'C'])]));
    assert_eq!(session.device_cursor(), (0, 5));
}

#[test]
fn unmapped_key_only_refreshes() {
    let mut session = connected_at((0, 5));
    let step = session.on_key(&key(KeyCode::Other), 10);
    assert_eq!(step.commands, framed(vec![]));
    assert_eq!(step.track, CursorTrack::Neither);
    assert_eq!(step.flow, Flow::Continue);
}

#[test]
fn failed_input_ends_the_session() {
    let mut session = connected_at((0, 5));
    for read in [Some(Err(InputFailure)), None] {
        let step = session.on_key(&read, 10);
        assert_eq!(
            step.commands,
            vec![
                Command::HideCursor,
                Command::Log(String::from("Keypress error")),
                Command::ShowCursor,
                Command::Flush,
            ]
        );
        assert_eq!(step.flow, Flow::Quit);
    }
}

#[test]
fn toggle_opens_the_menu_below_the_device_cursor() {
    let mut session = connected_at((6, 5));
    let step = session.on_key(&toggle(), 10);
    assert_eq!(step.commands, framed(opening(5, 10, "")));
    assert_eq!(step.track, CursorTrack::Menu);
    assert_eq!(step.flow, Flow::Continue);
    assert!(session.menu().is_open);
    assert_eq!(session.menu().cursor_position, (6, 5));
    assert_eq!(session.device_cursor(), (6, 4));
    assert_eq!(session.active_cursor(), (6, 5));
    rows_apart(&session);
}

#[test]
fn toggle_on_the_topmost_row_opens_the_menu_on_the_next() {
    let mut session = connected_at((6, 0));
    let step = session.on_key(&toggle(), 10);
    assert_eq!(step.commands, framed(opening(1, 10, "")));
    assert_eq!(session.menu().cursor_position, (6, 1));
    assert_eq!(session.device_cursor(), (6, 0));
    rows_apart(&session);
}

#[test]
fn closing_a_menu_opened_on_the_topmost_row_restores_that_row() {
    let mut session = connected_at((6, 0));
    session.on_key(&toggle(), 10);
    assert_eq!(session.row_before_menu(), 0);
    feed(&mut session, b"ab");
    assert_eq!(session.device_cursor(), (8, 0));
    let step = session.on_key(&toggle(), 10);
    assert_eq!(step.commands, framed(vec![Command::MoveTo(3, 1), Command::ClearLine]));
    assert!(!session.menu().is_open);
    assert_eq!(session.device_cursor(), (8, 0));
}

#[test]
fn closing_restores_the_row_after_line_feeds_and_commands() {
    let mut session = connected_at((6, 5));
    session.on_key(&toggle(), 10);
    assert_eq!(session.row_before_menu(), 5);
    feed(&mut session, b"x\ny");
    type_text(&mut session, "ts");
    session.on_key(&key(KeyCode::Enter), 10);
    assert_eq!(session.device_cursor(), (1, 4));
    assert_eq!(session.row_before_menu(), 5);
    session.on_key(&toggle(), 10);
    assert_eq!(session.device_cursor(), (1, 5));
}

#[test]
fn toggle_closes_the_menu_and_gives_the_row_back() {
    let mut session = connected_at((6, 5));
    session.on_key(&toggle(), 10);
    type_text(&mut session, "ab");
    let step = session.on_key(&toggle(), 10);
    assert_eq!(step.commands, framed(vec![Command::MoveTo(3, 5), Command::ClearLine]));
    assert_eq!(step.track, CursorTrack::Neither);
    assert!(!session.menu().is_open);
    assert_eq!(session.menu().command, "");
    assert_eq!(session.device_cursor(), (6, 5));
    assert_eq!(session.active_cursor(), (6, 5));
}

#[test]
fn key_goes_to_the_open_menu_and_is_not_transmitted() {
    let mut session = connected_at((6, 5));
    session.on_key(&toggle(), 10);
    let step = session.on_key(&key(KeyCode::Char('h')), 10);
    assert_eq!(step.commands, framed(line(5, 10, "h")));
    assert_eq!(step.track, CursorTrack::Menu);
    assert_eq!(session.menu().command, "h");
    assert_eq!(session.menu().cursor_position, (7, 5));
    assert_eq!(session.device_cursor(), (6, 4));
}

#[test]
fn unknown_command_then_enter_returns_to_an_empty_line() {
    let mut session = connected_at((0, 5));
    session.on_key(&toggle(), 10);
    type_text(&mut session, "xyz");
    let step = session.on_key(&key(KeyCode::Enter), 10);
    assert_eq!(step.commands, framed(line(5, 10, "xyz is an unknown command")));
    assert_eq!(step.flow, Flow::Continue);
    assert_eq!(session.menu().error, Some(String::from("xyz is an unknown command")));
    assert_eq!(session.menu().command, "xyz");
    let step = session.on_key(&key(KeyCode::Enter), 10);
    assert_eq!(step.commands, framed(line(5, 10, "")));
    assert_eq!(step.flow, Flow::Continue);
    assert!(session.menu().is_open);
    assert_eq!(session.menu().error, None);
    assert_eq!(session.menu().command, "");
    assert_eq!(session.menu().action, None);
}

#[test]
fn quit_command_ends_the_session() {
    let mut session = connected_at((0, 5));
    session.on_key(&toggle(), 10);
    type_text(&mut session, "q");
    let step = session.on_key(&key(KeyCode::Enter), 10);
    assert_eq!(step.flow, Flow::Quit);
    assert_eq!(session.menu().action, Some(Action::Quit));
    let mut expected = vec![Command::HideCursor];
    expected.extend(line(5, 10, ""));
    expected.push(Command::ShowCursor);
    expected.push(Command::Flush);
    assert_eq!(step.commands, expected);
}

#[test]
fn timestamp_command_logs_a_blank_line_and_opens_a_fresh_menu_line() {
    let mut session = connected_at((3, 5));
    session.on_key(&toggle(), 10);
    type_text(&mut session, "ts");
    let step = session.on_key(&key(KeyCode::Enter), 10);
    let mut body = line(5, 10, "");
    body.push(Command::MoveUp(1));
    body.push(Command::Log(String::new()));
    body.extend(opening(5, 10, ""));
    assert_eq!(step.commands, framed(body));
    assert_eq!(step.track, CursorTrack::Menu);
    assert_eq!(step.flow, Flow::Continue);
    assert!(session.menu().is_open);
    assert_eq!(session.menu().command, "");
    assert_eq!(session.menu().action, None);
    assert_eq!(session.menu().cursor_position, (5, 5));
    assert_eq!(session.device_cursor(), (3, 4));
    rows_apart(&session);
}

#[test]
fn help_command_does_nothing() {
    let mut session = connected_at((3, 5));
    session.on_key(&toggle(), 10);
    type_text(&mut session, "help");
    let step = session.on_key(&key(KeyCode::Enter), 10);
    assert_eq!(step.commands, framed(line(5, 10, "")));
    assert_eq!(step.flow, Flow::Continue);
    assert_eq!(session.menu().action, Some(Action::Help));
    assert!(session.menu().is_open);
}

#[test]
fn device_byte_is_drawn_and_moves_the_cursor_on() {
    let mut session = connected_at((3, 5));
    let steps = feed(&mut session, b"A");
    assert_eq!(
        steps[0].commands,
        framed(vec![Command::MoveTo(3, 5), Command::PrintBytes(vec![b'A'])])
    );
    assert_eq!(steps[0].track, CursorTrack::Device);
    assert_eq!(steps[0].flow, Flow::Continue);
    assert_eq!(session.device_cursor(), (4, 5));
}

#[test]
fn device_cursor_stops_at_the_last_column() {
    let mut session = connected_at((u16::MAX - 1, 5));
    feed(&mut session, b"AB");
    assert_eq!(session.device_cursor(), (u16::MAX, 5));
    let steps = feed(&mut session, b"C");
    assert_eq!(
        steps[0].commands,
        framed(vec![Command::MoveTo(u16::MAX, 5), Command::PrintBytes(vec![b'C'])])
    );
    assert_eq!(session.device_cursor(), (u16::MAX, 5));
}

#[test]
fn colour_sequence_is_drawn_whole_where_it_began() {
    let mut session = connected_at((3, 5));
    let steps = feed(&mut session, &[0x1B, 0x5B, 0x33, 0x31]);
    for step in &steps {
        assert_eq!(step.commands, framed(vec![]));
        assert_eq!(step.track, CursorTrack::Neither);
    }
    assert_eq!(session.device_cursor(), (3, 5));
    assert_eq!(session.pending(), &vec![0x1Bu8, 0x5B, 0x33, 0x31]);
    let steps = feed(&mut session, &[0x6D]);
    assert_eq!(
        steps[0].commands,
        framed(vec![
            Command::MoveTo(3, 5),
            Command::PrintBytes(vec![0x1B, 0x5B, 0x33, 0x31, 0x6D]),
        ])
    );
    assert_eq!(steps[0].track, CursorTrack::Device);
    assert_eq!(session.device_cursor(), (3, 5));
    assert_eq!(session.pending(), &Vec::<u8>::new());
}

#[test]
fn second_escape_inside_a_sequence_is_not_accepted() {
    let mut session = connected_at((3, 5));
    assert!(session.accepts_device_byte(0x1B));
    feed(&mut session, &[0x1B, b'[']);
    assert!(!session.accepts_device_byte(0x1B));
    assert!(session.accepts_device_byte(b'm'));
}

#[test]
fn line_feed_with_the_menu_closed_is_drawn_like_any_byte() {
    let mut session = connected_at((3, 5));
    let steps = feed(&mut session, b"\n");
    assert_eq!(
        steps[0].commands,
        framed(vec![Command::MoveTo(3, 5), Command::PrintBytes(vec![b'\n'])])
    );
    assert_eq!(steps[0].track, CursorTrack::Device);
}

#[test]
fn line_feed_with_the_menu_open_moves_the_menu_line_down() {
    let mut session = connected_at((3, 5));
    session.on_key(&toggle(), 10);
    type_text(&mut session, "ab");
    feed(&mut session, b"xy");
    assert_eq!(session.device_cursor(), (5, 4));
    let steps = feed(&mut session, b"\n");
    let mut body = vec![Command::MoveTo(0, 5), Command::ClearLine];
    body.extend(opening(5, 10, "ab"));
    assert_eq!(steps[0].commands, framed(body));
    assert_eq!(steps[0].track, CursorTrack::Neither);
    assert_eq!(session.device_cursor(), (0, 4));
    assert_eq!(session.menu().command, "ab");
    assert_eq!(session.menu().cursor_position, (5, 5));
    rows_apart(&session);
}

#[test]
fn device_bytes_with_the_menu_open_are_drawn_above_it() {
    let mut session = connected_at((3, 5));
    session.on_key(&toggle(), 10);
    let steps = feed(&mut session, b"A");
    assert_eq!(
        steps[0].commands,
        framed(vec![Command::MoveTo(3, 4), Command::PrintBytes(vec![b'A'])])
    );
    assert_eq!(session.device_cursor(), (4, 4));
    assert_eq!(session.active_cursor(), (3, 5));
    rows_apart(&session);
}

#[test]
fn lost_link_starts_a_connection_cycle() {
    for kind in [ErrorKind::PermissionDenied, ErrorKind::TimedOut] {
        let mut session = connected_at((3, 5));
        let step = session.on_read_failure(kind, "ignored");
        assert_eq!(step.flow, Flow::Reconnect);
        assert_eq!(step.commands, framed(vec![]));
        assert_eq!(
            session.connection(),
            ConnectionState::Connecting { attempts: 0, last_error: Some(kind), animation_frame: 0 }
        );
    }
}

#[test]
fn reconnect_names_the_failure_and_logs_two_lines() {
    let mut session = connected_at((3, 5));
    session.on_read_failure(ErrorKind::TimedOut, "");
    let mut logged = Vec::new();
    let mut all = session.open_failed("COM3");
    all.extend(session.open_failed("COM3"));
    all.extend(session.open_failed("COM3"));
    all.extend(session.open_succeeded("COM3"));
    for command in all {
        if let Command::Log(message) = command {
            logged.push(message);
        }
    }
    assert_eq!(logged, vec!["COM3 error 'timed out', waiting", "Connected to COM3"]);
    assert_eq!(session.connection(), ConnectionState::Connected);
}

#[test]
fn other_read_failure_is_logged_and_the_session_goes_on() {
    let mut session = connected_at((3, 5));
    let step = session.on_read_failure(ErrorKind::Other, "Kind(BrokenPipe)");
    assert_eq!(step.flow, Flow::Continue);
    assert_eq!(
        step.commands,
        framed(vec![Command::Log(String::from("Serial RX Error: Kind(BrokenPipe)"))])
    );
    assert_eq!(session.connection(), ConnectionState::Connected);
    let step = session.on_read_failure(ErrorKind::WouldBlock, "Kind(WouldBlock)");
    assert_eq!(step.flow, Flow::Continue);
}

#[test]
fn failed_transmission_is_logged_unless_the_device_would_block() {
    assert_eq!(transmit_failed(ErrorKind::WouldBlock, "Kind(WouldBlock)"), Vec::<Command>::new());
    for kind in [ErrorKind::Other, ErrorKind::PermissionDenied, ErrorKind::TimedOut] {
        assert_eq!(
            transmit_failed(kind, "Kind(BrokenPipe)"),
            vec![Command::Log(String::from("Serial TX Error: Kind(BrokenPipe)"))]
        );
    }
}

#[test]
fn settle_shows_the_cursor_at_the_device_cursor() {
    let mut session = connected_at((3, 5));
    let commands = session.settle(CursorTrack::Neither, None);
    assert_eq!(commands, vec![Command::MoveTo(3, 5), Command::ShowCursor]);
    let commands = session.settle(CursorTrack::Neither, Some((9, 9)));
    assert_eq!(commands, vec![Command::MoveTo(3, 5), Command::ShowCursor]);
}

#[test]
fn settle_takes_over_the_reported_device_position() {
    let mut session = connected_at((3, 5));
    feed(&mut session, b"\n");
    let commands = session.settle(CursorTrack::Device, Some((4, 6)));
    assert_eq!(session.device_cursor(), (4, 6));
    assert_eq!(commands, vec![Command::MoveTo(4, 6), Command::ShowCursor]);
    let commands = session.settle(CursorTrack::Device, None);
    assert_eq!(commands, vec![Command::MoveTo(4, 6), Command::ShowCursor]);
}

#[test]
fn settle_keeps_both_rows_while_the_menu_is_open() {
    let mut session = connected_at((3, 5));
    session.on_key(&toggle(), 10);
    let commands = session.settle(CursorTrack::Menu, Some((7, 4)));
    assert_eq!(session.menu().cursor_position, (7, 5));
    assert_eq!(commands, vec![Command::MoveTo(7, 5), Command::ShowCursor]);
    feed(&mut session, b"A");
    let commands = session.settle(CursorTrack::Device, Some((0, 5)));
    assert_eq!(session.device_cursor(), (0, 4));
    assert_eq!(commands, vec![Command::MoveTo(7, 5), Command::ShowCursor]);
    rows_apart(&session);
}

#[test]
fn settle_moves_a_closed_menu_whole() {
    let mut session = connected_at((3, 5));
    session.settle(CursorTrack::Menu, Some((7, 8)));
    assert_eq!(session.menu().cursor_position, (7, 8));
    assert_eq!(session.device_cursor(), (3, 5));
}

#[test]
fn rows_stay_apart_through_a_long_run() {
    let mut session = connected_at((0, 0));
    let reports = [(0u16, 0u16), (5, 5), (79, 23), (0, 23), (3, 65535), (65535, 65535), (1, 1)];
    let mut turn: usize = 0;
    for round in 0..40usize {
        let report = reports[round % reports.len()];
        let step = match round % 8 {
            0 => session.on_key(&toggle(), 10),
            1 => session.on_device_byte(b'x', 10),
            2 => session.on_device_byte(b'\n', 10),
            3 => session.on_key(&key(KeyCode::Char('t')), 10),
            4 => session.on_key(&key(KeyCode::Enter), 10),
            5 => session.on_device_byte(b'\r', 10),
            6 => session.on_key(&key(KeyCode::Char('s')), 10),
            _ => {
                turn += 1;
                if turn % 3 == 0 {
                    session.on_key(&toggle(), 10)
                } else {
                    session.on_key(&key(KeyCode::Enter), 10)
                }
            }
        };
        rows_apart(&session);
        assert_ne!(step.flow, Flow::Reconnect);
        let reported = if round % 2 == 0 { Some(report) } else { None };
        session.settle(step.track, reported);
        rows_apart(&session);
        session.settle(CursorTrack::Device, Some(report));
        rows_apart(&session);
        session.settle(CursorTrack::Menu, Some(report));
        rows_apart(&session);
    }
}

#[test]
fn while_connecting_the_toggle_ends_the_session() {
    let mut session = Session::new();
    let step = session.on_key_while_connecting(&toggle());
    assert_eq!(step.flow, Flow::Quit);
    assert_eq!(step.commands, vec![Command::ShowCursor, Command::Flush]);
    assert_eq!(session.connection(), ConnectionState::Disconnected);
}

#[test]
fn giving_up_wipes_the_animation_and_shows_the_cursor() {
    let mut session = Session::new();
    session.open_failed("COM3");
    session.open_failed("COM3");
    let step = session.on_key_while_connecting(&toggle());
    assert_eq!(step.flow, Flow::Quit);
    assert_eq!(
        step.commands,
        vec![
            Command::MoveLeft(2),
            Command::Print(String::from("     ")),
            Command::ShowCursor,
            Command::Flush,
        ]
    );
    assert_eq!(session.connection(), ConnectionState::Disconnected);
}

#[test]
fn while_connecting_other_keys_are_ignored() {
    for read in [key(KeyCode::Char('q')), key(KeyCode::Other), Some(Ok(InputEvent::FocusLost))] {
        let mut session = Session::new();
        session.open_failed("COM3");
        let before = session.connection();
        let step = session.on_key_while_connecting(&read);
        assert_eq!(step.flow, Flow::Continue);
        assert_eq!(step.commands, Vec::<Command>::new());
        assert_eq!(step.track, CursorTrack::Neither);
        assert_eq!(session.connection(), before);
    }
}

#[test]
fn while_connecting_failed_input_is_logged_and_ends_the_session() {
    for read in [Some(Err(InputFailure)), None] {
        let mut session = Session::new();
        let step = session.on_key_while_connecting(&read);
        assert_eq!(step.flow, Flow::Quit);
        assert_eq!(
            step.commands,
            vec![
                Command::Log(String::from("Keypress error")),
                Command::ShowCursor,
                Command::Flush,
            ]
        );
        assert_eq!(session.connection(), ConnectionState::Disconnected);
    }
}
