//! The session: the state that one run of the program owns, and the
//! decisions of its event loop. Each function takes one event, moves the
//! state on and returns the commands to perform.

use vstd::prelude::*;
use vstd::string::StringExecFns;
use crate::ansi::accepts_byte;
use crate::ansi::emitted;
use crate::ansi::pending_after;
use crate::ansi::well_formed_pending;
use crate::ansi::AnsiBuffer;
use crate::ansi::Emit;
use crate::ansi::EmitView;
use crate::keyboard_input::event_action;
use crate::keyboard_input::handle_event;
use crate::keyboard_input::handle_keypress_event;
use crate::keyboard_input::InputEvent;
use crate::keyboard_input::InputFailure;
use crate::keyboard_input::KeyboardInputAction;
use crate::keyboard_input::KeyboardInputActionView;
use crate::menu::advanced_column;
use crate::menu::after_event;
use crate::menu::close;
use crate::menu::close_commands;
use crate::menu::closed_menu;
use crate::menu::fresh_menu;
use crate::menu::handle_chars;
use crate::menu::line_commands;
use crate::menu::newline;
use crate::menu::newline_commands;
use crate::menu::opened_menu;
use crate::menu::Action;
use crate::menu::MenuState;
use crate::menu::MenuStateView;
use crate::render::commands_view;
use crate::render::emit;
use crate::render::emit_all;
use crate::render::no_commands;
use crate::render::Command;
use crate::render::CommandView;
use crate::serial_connection::abandon_commands;
use crate::serial_connection::abandon_connect;
use crate::serial_connection::after_abandon;
use crate::serial_connection::after_failure;
use crate::serial_connection::after_success;
use crate::serial_connection::attempt_failed;
use crate::serial_connection::attempt_succeeded;
use crate::serial_connection::begin_connect;
use crate::serial_connection::failure_commands;
use crate::serial_connection::fresh_cycle;
use crate::serial_connection::is_transient;
use crate::serial_connection::success_commands;
use crate::serial_connection::ConnectionState;
use crate::serial_connection::ErrorKind;

verus! {

/// The byte that moves the device's output to a new line.
pub const LINE_FEED: u8 = 0x0A;

/// Which cursor a step has moved on the terminal, so that the position the
/// terminal reports afterwards can be taken over for it.
#[derive(Clone, Copy, Debug, PartialEq, Eq)]
pub enum CursorTrack {
    Neither,
    Device,
    Menu,
}

/// What the event loop does after a step.
#[derive(Clone, Copy, Debug, PartialEq, Eq)]
pub enum Flow {
    /// Wait for the next event.
    Continue,
    /// The link is lost: leave the communication loop and open the port
    /// again.
    Reconnect,
    /// End the session.
    Quit,
}

/// What one event leads to.
#[derive(Debug)]
pub struct Step {
    pub commands: Vec<Command>,
    pub track: CursorTrack,
    pub flow: Flow,
}

/// Mathematical value of a `Step`.
pub struct StepView {
    pub commands: Seq<CommandView>,
    pub track: CursorTrack,
    pub flow: Flow,
}

impl View for Step {
    type V = StepView;

    open spec fn view(&self) -> StepView {
        StepView { commands: commands_view(self.commands@), track: self.track, flow: self.flow }
    }
}

/// The state of one run: the link, the menu, the escape sequence in
/// progress, and where the next byte from the device is drawn.
#[derive(Debug)]
pub struct Session {
    connection: ConnectionState,
    menu: MenuState,
    ansi: AnsiBuffer,
    device_cursor: (u16, u16),
    row_before_menu: u16,
}

/// Mathematical value of a `Session`. `row_before_menu` is the row the
/// device cursor had when the menu was last opened.
pub struct SessionView {
    pub connection: ConnectionState,
    pub menu: MenuStateView,
    pub pending: Seq<u8>,
    pub device_cursor: (u16, u16),
    pub row_before_menu: u16,
}

/// A new state together with the step that led to it.
pub struct Outcome {
    pub state: SessionView,
    pub step: StepView,
}

impl View for Session {
    type V = SessionView;

    closed spec fn view(&self) -> SessionView {
        SessionView {
            connection: self.connection,
            menu: self.menu@,
            pending: self.ansi@,
            device_cursor: self.device_cursor,
            row_before_menu: self.row_before_menu,
        }
    }
}

/// The invariant of a session: the escape sequence in progress is well
/// formed, and while the menu is open it has the row directly below the
/// device cursor.
pub open spec fn well_formed(s: SessionView) -> bool {
    &&& well_formed_pending(s.pending)
    &&& s.menu.is_open ==> s.device_cursor.1 + 1 == s.menu.cursor_position.1
}

/// The cursor the operator sees: the menu's while the menu is open, else
/// the device's.
pub open spec fn active_cursor(s: SessionView) -> (u16, u16) {
    if s.menu.is_open {
        s.menu.cursor_position
    } else {
        s.device_cursor
    }
}

/// The commands of a step that goes on: the cursor is hidden, the step's own
/// commands follow, and everything is written out.
pub open spec fn framed(body: Seq<CommandView>) -> Seq<CommandView> {
    seq![CommandView::HideCursor] + body + seq![CommandView::Flush]
}

/// The commands of a step that ends the session: as `framed`, but the
/// cursor is shown again before everything is written out.
pub open spec fn framed_last(body: Seq<CommandView>) -> Seq<CommandView> {
    seq![CommandView::HideCursor] + body + seq![CommandView::ShowCursor, CommandView::Flush]
}

/// A step that changes nothing on screen.
pub open spec fn idle_step() -> StepView {
    StepView {
        commands: framed(Seq::<CommandView>::empty()),
        track: CursorTrack::Neither,
        flow: Flow::Continue,
    }
}

/// The row the menu takes when it opens with the device cursor on
/// `device_row`: that row, so that the device cursor moves one row up; on
/// the topmost row, where nothing can move up, the row below.
pub open spec fn reserved_row(device_row: u16) -> u16 {
    if device_row == 0 {
        1
    } else {
        device_row
    }
}

/// The state at the start of a run: a first connection cycle, a closed menu
/// and both cursors at the origin.
pub open spec fn initial_session() -> SessionView {
    SessionView {
        connection: fresh_cycle(None),
        menu: fresh_menu((0, 0)),
        pending: Seq::<u8>::empty(),
        device_cursor: (0, 0),
        row_before_menu: 0,
    }
}

/// The state when communication starts with the terminal cursor at
/// `position`: a closed menu, no escape sequence in progress, and both
/// cursors there.
pub open spec fn started(s: SessionView, position: (u16, u16)) -> SessionView {
    SessionView {
        menu: fresh_menu(position),
        pending: Seq::<u8>::empty(),
        device_cursor: position,
        row_before_menu: position.1,
        ..s
    }
}

/// The menu toggle. Opening remembers the row of the device cursor,
/// reserves a row for the menu, draws the menu there and puts the device
/// cursor on the row above. Closing clears the reserved row and puts the
/// device cursor back on the row it had when the menu opened.
pub open spec fn toggle_outcome(s: SessionView, columns: u16) -> Outcome {
    if s.menu.is_open {
        Outcome {
            state: SessionView {
                menu: closed_menu(s.menu),
                device_cursor: (s.device_cursor.0, s.row_before_menu),
                ..s
            },
            step: StepView {
                commands: framed(close_commands(s.menu)),
                track: CursorTrack::Neither,
                flow: Flow::Continue,
            },
        }
    } else {
        let row = reserved_row(s.device_cursor.1);
        let placed = MenuStateView { cursor_position: (s.menu.cursor_position.0, row), ..s.menu };
        Outcome {
            state: SessionView {
                menu: opened_menu(placed),
                device_cursor: (s.device_cursor.0, (row - 1) as u16),
                row_before_menu: s.device_cursor.1,
                ..s
            },
            step: StepView {
                commands: framed(newline_commands(placed, columns)),
                track: CursorTrack::Menu,
                flow: Flow::Continue,
            },
        }
    }
}

/// An event that reaches the open menu. The menu takes the event and draws
/// its row again. If that sets an action: `Quit` ends the session;
/// `Timestamp` logs an empty status line over the menu row and opens a fresh
/// menu line; `Help` does nothing.
pub open spec fn menu_key_outcome(s: SessionView, event: InputEvent, columns: u16) -> Outcome {
    let edited = after_event(s.menu, event);
    match edited.action {
        Some(Action::Quit) => Outcome {
            state: SessionView { menu: edited, ..s },
            step: StepView {
                commands: framed_last(line_commands(edited, columns)),
                track: CursorTrack::Menu,
                flow: Flow::Quit,
            },
        },
        Some(Action::Timestamp) => Outcome {
            state: SessionView {
                menu: opened_menu(edited),
                device_cursor: (s.device_cursor.0, (edited.cursor_position.1 - 1) as u16),
                ..s
            },
            step: StepView {
                commands: framed(
                    line_commands(edited, columns) + seq![
                        CommandView::MoveUp(1),
                        CommandView::Log(Seq::<char>::empty()),
                    ] + newline_commands(edited, columns),
                ),
                track: CursorTrack::Menu,
                flow: Flow::Continue,
            },
        },
        _ => Outcome {
            state: SessionView { menu: edited, ..s },
            step: StepView {
                commands: framed(line_commands(edited, columns)),
                track: CursorTrack::Menu,
                flow: Flow::Continue,
            },
        },
    }
}

/// The step that ends the session after the input stream has failed.
pub open spec fn input_error_step() -> StepView {
    StepView {
        commands: framed_last(seq![CommandView::Log("Keypress error"@)]),
        track: CursorTrack::Neither,
        flow: Flow::Quit,
    }
}

/// One item read from the input stream during communication.
///
/// A key that maps to bytes goes to the menu while the menu is open and is
/// transmitted otherwise; the menu toggle opens or closes the menu; a
/// failed read ends the session; everything else is ignored.
pub open spec fn key_outcome(
    s: SessionView,
    read: Option<Result<InputEvent, InputFailure>>,
    columns: u16,
) -> Outcome {
    match read {
        Some(Ok(event)) => match event_action(event) {
            KeyboardInputActionView::Chars(bytes) => if s.menu.is_open {
                menu_key_outcome(s, event, columns)
            } else {
                Outcome {
                    state: s,
                    step: StepView {
                        commands: framed(seq![CommandView::Transmit(bytes)]),
                        track: CursorTrack::Neither,
                        flow: Flow::Continue,
                    },
                }
            },
            KeyboardInputActionView::Menu => toggle_outcome(s, columns),
            KeyboardInputActionView::NoAction => Outcome { state: s, step: idle_step() },
            KeyboardInputActionView::KeypressError => Outcome { state: s, step: input_error_step() },
        },
        _ => Outcome { state: s, step: input_error_step() },
    }
}

/// One byte from the device.
///
/// Inside an escape sequence nothing is drawn and the device cursor stays;
/// the complete sequence is drawn where the device cursor stands, which is
/// where it stood when the sequence began. A line feed while the menu is
/// open clears the menu row, opens the menu line again and puts the device
/// cursor at the start of the row above it. Any other byte is drawn at the
/// device cursor, which moves on by one column.
pub open spec fn device_byte_outcome(s: SessionView, byte: u8, columns: u16) -> Outcome {
    let pending = pending_after(s.pending, byte);
    match emitted(s.pending, byte) {
        EmitView::Nothing => Outcome { state: SessionView { pending, ..s }, step: idle_step() },
        EmitView::Sequence(bytes) => Outcome {
            state: SessionView { pending, ..s },
            step: StepView {
                commands: framed(
                    seq![
                        CommandView::MoveTo(s.device_cursor.0, s.device_cursor.1),
                        CommandView::PrintBytes(bytes),
                    ],
                ),
                track: CursorTrack::Device,
                flow: Flow::Continue,
            },
        },
        EmitView::Char(b) => if s.menu.is_open && b == LINE_FEED {
            Outcome {
                state: SessionView {
                    pending,
                    menu: opened_menu(s.menu),
                    device_cursor: (0, (s.menu.cursor_position.1 - 1) as u16),
                    ..s
                },
                step: StepView {
                    commands: framed(
                        seq![
                            CommandView::MoveTo(0, s.menu.cursor_position.1),
                            CommandView::ClearLine,
                        ] + newline_commands(s.menu, columns),
                    ),
                    track: CursorTrack::Neither,
                    flow: Flow::Continue,
                },
            }
        } else {
            Outcome {
                state: SessionView {
                    pending,
                    device_cursor: (advanced_column(s.device_cursor.0), s.device_cursor.1),
                    ..s
                },
                step: StepView {
                    commands: framed(
                        seq![
                            CommandView::MoveTo(s.device_cursor.0, s.device_cursor.1),
                            CommandView::PrintBytes(seq![b]),
                        ],
                    ),
                    track: CursorTrack::Device,
                    flow: Flow::Continue,
                },
            }
        },
    }
}

/// A failed read from the device. A transient failure starts a connection
/// cycle that remembers it; any other is logged with its `detail` and the
/// session goes on.
pub open spec fn read_failure_outcome(s: SessionView, kind: ErrorKind, detail: Seq<char>) -> Outcome {
    if is_transient(kind) {
        Outcome {
            state: SessionView { connection: fresh_cycle(Some(kind)), ..s },
            step: StepView {
                commands: framed(Seq::<CommandView>::empty()),
                track: CursorTrack::Neither,
                flow: Flow::Reconnect,
            },
        }
    } else {
        Outcome {
            state: s,
            step: StepView {
                commands: framed(seq![CommandView::Log("Serial RX Error: "@ + detail)]),
                track: CursorTrack::Neither,
                flow: Flow::Continue,
            },
        }
    }
}

/// The commands after a failed transmission: a device that would block is
/// passed over in silence, any other failure is logged with its `detail`.
pub open spec fn write_failure_commands(kind: ErrorKind, detail: Seq<char>) -> Seq<CommandView> {
    if kind == ErrorKind::WouldBlock {
        Seq::<CommandView>::empty()
    } else {
        seq![CommandView::Log("Serial TX Error: "@ + detail)]
    }
}

/// The state after the terminal has reported its cursor at the end of a
/// step. The cursor the step moved takes the reported column. It takes the
/// reported row as well unless the menu is open: then both rows are fixed
/// by the menu's reservation.
pub open spec fn settled(s: SessionView, track: CursorTrack, reported: Option<(u16, u16)>) -> SessionView {
    match reported {
        Some(position) => {
            let row_free = !s.menu.is_open;
            match track {
                CursorTrack::Neither => s,
                CursorTrack::Device => SessionView {
                    device_cursor: (
                        position.0,
                        if row_free {
                            position.1
                        } else {
                            s.device_cursor.1
                        },
                    ),
                    ..s
                },
                CursorTrack::Menu => SessionView {
                    menu: MenuStateView {
                        cursor_position: (
                            position.0,
                            if row_free {
                                position.1
                            } else {
                                s.menu.cursor_position.1
                            },
                        ),
                        ..s.menu
                    },
                    ..s
                },
            }
        },
        None => s,
    }
}

/// The commands that end every step that goes on: the terminal cursor goes
/// to the active cursor and is shown.
pub open spec fn settle_commands(s: SessionView) -> Seq<CommandView> {
    seq![
        CommandView::MoveTo(active_cursor(s).0, active_cursor(s).1),
        CommandView::ShowCursor,
    ]
}

/// One item read from the input stream while the port is being opened: the
/// menu toggle and a failed read, which is logged, end the session and give
/// the connection cycle up; everything else is ignored.
pub open spec fn waiting_key_outcome(
    s: SessionView,
    read: Option<Result<InputEvent, InputFailure>>,
) -> Outcome {
    let ignored = Outcome {
        state: s,
        step: StepView {
            commands: Seq::<CommandView>::empty(),
            track: CursorTrack::Neither,
            flow: Flow::Continue,
        },
    };
    let given_up = SessionView { connection: after_abandon(s.connection), ..s };
    let failed = Outcome {
        state: given_up,
        step: StepView {
            commands: seq![CommandView::Log("Keypress error"@)] + abandon_commands(s.connection),
            track: CursorTrack::Neither,
            flow: Flow::Quit,
        },
    };
    match read {
        Some(Ok(event)) => match event_action(event) {
            KeyboardInputActionView::Menu => Outcome {
                state: given_up,
                step: StepView {
                    commands: abandon_commands(s.connection),
                    track: CursorTrack::Neither,
                    flow: Flow::Quit,
                },
            },
            KeyboardInputActionView::KeypressError => failed,
            _ => ignored,
        },
        _ => failed,
    }
}

fn frame(body: Vec<Command>) -> (commands: Vec<Command>)
    ensures
        commands_view(commands@) == framed(commands_view(body@)),
{
    let mut commands = no_commands();
    emit(&mut commands, Command::HideCursor);
    emit_all(&mut commands, body);
    emit(&mut commands, Command::Flush);
    commands
}

fn frame_last(body: Vec<Command>) -> (commands: Vec<Command>)
    ensures
        commands_view(commands@) == framed_last(commands_view(body@)),
{
    let mut commands = no_commands();
    emit(&mut commands, Command::HideCursor);
    emit_all(&mut commands, body);
    emit(&mut commands, Command::ShowCursor);
    emit(&mut commands, Command::Flush);
    assert(commands_view(commands@) =~= framed_last(commands_view(body@)));
    commands
}

fn input_error() -> (step: Step)
    ensures
        step@ == input_error_step(),
{
    let mut body = no_commands();
    emit(&mut body, Command::Log(String::from_str("Keypress error")));
    assert(commands_view(body@) =~= seq![CommandView::Log("Keypress error"@)]);
    Step { commands: frame_last(body), track: CursorTrack::Neither, flow: Flow::Quit }
}

fn draw_bytes(position: (u16, u16), bytes: Vec<u8>) -> (step: Step)
    ensures
        step@ == (StepView {
            commands: framed(
                seq![CommandView::MoveTo(position.0, position.1), CommandView::PrintBytes(bytes@)],
            ),
            track: CursorTrack::Device,
            flow: Flow::Continue,
        }),
{
    let mut body = no_commands();
    emit(&mut body, Command::MoveTo(position.0, position.1));
    emit(&mut body, Command::PrintBytes(bytes));
    assert(commands_view(body@) =~= seq![
        CommandView::MoveTo(position.0, position.1),
        CommandView::PrintBytes(bytes@),
    ]);
    Step { commands: frame(body), track: CursorTrack::Device, flow: Flow::Continue }
}

/// The commands after a failed transmission of kind `kind`; `detail` is the
/// failure as the status line is to show it.
pub fn transmit_failed(kind: ErrorKind, detail: &str) -> (commands: Vec<Command>)
    ensures
        commands_view(commands@) == write_failure_commands(kind, detail@),
{
    let mut commands = no_commands();
    match kind {
        ErrorKind::WouldBlock => {},
        _ => {
            emit(&mut commands, Command::Log(String::from_str("Serial TX Error: ").concat(detail)));
            assert(commands_view(commands@) =~= write_failure_commands(kind, detail@));
        },
    }
    commands
}

impl Session {
    /// The invariant of the session.
    pub open spec fn wf(&self) -> bool {
        well_formed(self@)
    }

    /// A session at the start of a run.
    pub fn new() -> (session: Session)
        ensures
            session.wf(),
            session@ == initial_session(),
    {
        Session {
            connection: begin_connect(None),
            menu: MenuState::new((0, 0)),
            ansi: AnsiBuffer::new(),
            device_cursor: (0, 0),
            row_before_menu: 0,
        }
    }

    /// Where the serial link stands.
    pub fn connection(&self) -> (connection: ConnectionState)
        ensures
            connection == self@.connection,
    {
        self.connection
    }

    /// The menu.
    pub fn menu(&self) -> (menu: &MenuState)
        ensures
            menu@ == self@.menu,
    {
        &self.menu
    }

    /// The bytes of the escape sequence in progress.
    pub fn pending(&self) -> (bytes: &Vec<u8>)
        ensures
            bytes@ == self@.pending,
    {
        self.ansi.pending()
    }

    /// Where the next byte from the device is drawn.
    pub fn device_cursor(&self) -> (position: (u16, u16))
        ensures
            position == self@.device_cursor,
    {
        self.device_cursor
    }

    /// The row the device cursor had when the menu was last opened.
    pub fn row_before_menu(&self) -> (row: u16)
        ensures
            row == self@.row_before_menu,
    {
        self.row_before_menu
    }

    /// The cursor the operator sees.
    pub fn active_cursor(&self) -> (position: (u16, u16))
        ensures
            position == active_cursor(self@),
    {
        if self.menu.is_open {
            self.menu.cursor_position
        } else {
            self.device_cursor
        }
    }

    /// An attempt to open `port` has failed.
    pub fn open_failed(&mut self, port: &str) -> (commands: Vec<Command>)
        requires
            old(self).wf(),
        ensures
            final(self).wf(),
            final(self)@ == (SessionView {
                connection: after_failure(old(self)@.connection),
                ..old(self)@
            }),
            commands_view(commands@) == failure_commands(old(self)@.connection, port@),
    {
        let (next, commands) = attempt_failed(self.connection, port);
        self.connection = next;
        commands
    }

    /// An attempt to open `port` has succeeded.
    pub fn open_succeeded(&mut self, port: &str) -> (commands: Vec<Command>)
        requires
            old(self).wf(),
        ensures
            final(self).wf(),
            final(self)@ == (SessionView {
                connection: after_success(old(self)@.connection),
                ..old(self)@
            }),
            commands_view(commands@) == success_commands(old(self)@.connection, port@),
    {
        let (next, commands) = attempt_succeeded(self.connection, port);
        self.connection = next;
        commands
    }

    /// Handles one item read from the input stream while the port is being
    /// opened.
    pub fn on_key_while_connecting(&mut self, read: &Option<Result<InputEvent, InputFailure>>) -> (step:
        Step)
        requires
            old(self).wf(),
        ensures
            final(self).wf(),
            final(self)@ == waiting_key_outcome(old(self)@, *read).state,
            step@ == waiting_key_outcome(old(self)@, *read).step,
    {
        let mut commands = no_commands();
        match handle_keypress_event(read) {
            KeyboardInputAction::Menu => {
                let (next, wiped) = abandon_connect(self.connection);
                self.connection = next;
                Step { commands: wiped, track: CursorTrack::Neither, flow: Flow::Quit }
            },
            KeyboardInputAction::NoAction | KeyboardInputAction::Chars(_) => Step {
                commands,
                track: CursorTrack::Neither,
                flow: Flow::Continue,
            },
            KeyboardInputAction::KeypressError => {
                emit(&mut commands, Command::Log(String::from_str("Keypress error")));
                let (next, wiped) = abandon_connect(self.connection);
                self.connection = next;
                emit_all(&mut commands, wiped);
                assert(commands_view(commands@) =~= seq![CommandView::Log("Keypress error"@)]
                    + abandon_commands(old(self)@.connection));
                Step { commands, track: CursorTrack::Neither, flow: Flow::Quit }
            },
        }
    }

    /// Communication starts with the terminal cursor at `position`.
    pub fn start(&mut self, position: (u16, u16))
        ensures
            final(self).wf(),
            final(self)@ == started(old(self)@, position),
    {
        self.menu = MenuState::new(position);
        self.ansi = AnsiBuffer::new();
        self.device_cursor = position;
        self.row_before_menu = position.1;
    }

    /// Whether `byte` may come from the device now. An escape byte inside an
    /// escape sequence in progress may not: the device has broken the
    /// protocol and the session cannot go on.
    pub fn accepts_device_byte(&self, byte: u8) -> (accepted: bool)
        ensures
            accepted == accepts_byte(self@.pending, byte),
    {
        self.ansi.accepts(byte)
    }

    /// Handles one byte read from the device on a terminal `columns` wide.
    pub fn on_device_byte(&mut self, byte: u8, columns: u16) -> (step: Step)
        requires
            old(self).wf(),
            accepts_byte(old(self)@.pending, byte),
        ensures
            final(self).wf(),
            final(self)@ == device_byte_outcome(old(self)@, byte, columns).state,
            step@ == device_byte_outcome(old(self)@, byte, columns).step,
    {
        match self.ansi.feed(byte) {
            Emit::Nothing => Step {
                commands: frame(no_commands()),
                track: CursorTrack::Neither,
                flow: Flow::Continue,
            },
            Emit::Sequence(bytes) => draw_bytes(self.device_cursor, bytes),
            Emit::Char(b) => {
                if self.menu.is_open && b == LINE_FEED {
                    let row: u16 = self.menu.cursor_position.1;
                    let mut body = no_commands();
                    emit(&mut body, Command::MoveTo(0, row));
                    emit(&mut body, Command::ClearLine);
                    let menu = self.take_menu();
                    let (opened, drawn) = newline(menu, columns);
                    self.menu = opened;
                    emit_all(&mut body, drawn);
                    self.device_cursor = (0, row - 1);
                    assert(commands_view(body@) =~= seq![
                        CommandView::MoveTo(0, row),
                        CommandView::ClearLine,
                    ] + newline_commands(old(self)@.menu, columns));
                    Step {
                        commands: frame(body),
                        track: CursorTrack::Neither,
                        flow: Flow::Continue,
                    }
                } else {
                    let position = self.device_cursor;
                    let mut bytes: Vec<u8> = Vec::new();
                    bytes.push(b);
                    assert(bytes@ =~= seq![b]);
                    if position.0 < u16::MAX {
                        self.device_cursor = (position.0 + 1, position.1);
                    }
                    draw_bytes(position, bytes)
                }
            },
        }
    }

    fn take_menu(&mut self) -> (menu: MenuState)
        ensures
            menu@ == old(self)@.menu,
            final(self)@.connection == old(self)@.connection,
            final(self)@.pending == old(self)@.pending,
            final(self)@.device_cursor == old(self)@.device_cursor,
            final(self)@.row_before_menu == old(self)@.row_before_menu,
    {
        let mut menu = MenuState::new((0, 0));
        std::mem::swap(&mut menu, &mut self.menu);
        menu
    }

    fn toggle_menu(&mut self, columns: u16) -> (step: Step)
        requires
            old(self).wf(),
        ensures
            final(self).wf(),
            final(self)@ == toggle_outcome(old(self)@, columns).state,
            step@ == toggle_outcome(old(self)@, columns).step,
    {
        let menu = self.take_menu();
        if menu.is_open {
            let (closed, drawn) = close(menu);
            self.menu = closed;
            self.device_cursor = (self.device_cursor.0, self.row_before_menu);
            Step { commands: frame(drawn), track: CursorTrack::Neither, flow: Flow::Continue }
        } else {
            let row: u16 = if self.device_cursor.1 == 0 {
                1
            } else {
                self.device_cursor.1
            };
            let mut placed = menu;
            placed.cursor_position = (placed.cursor_position.0, row);
            let (opened, drawn) = newline(placed, columns);
            self.menu = opened;
            self.row_before_menu = self.device_cursor.1;
            self.device_cursor = (self.device_cursor.0, row - 1);
            Step { commands: frame(drawn), track: CursorTrack::Menu, flow: Flow::Continue }
        }
    }

    fn menu_key(&mut self, event: InputEvent, columns: u16) -> (step: Step)
        requires
            old(self).wf(),
            old(self)@.menu.is_open,
        ensures
            final(self).wf(),
            final(self)@ == menu_key_outcome(old(self)@, event, columns).state,
            step@ == menu_key_outcome(old(self)@, event, columns).step,
    {
        let menu = self.take_menu();
        let (edited, drawn) = handle_chars(menu, event, columns);
        let ghost edited_view = edited@;
        match edited.action {
            Some(Action::Quit) => {
                self.menu = edited;
                Step { commands: frame_last(drawn), track: CursorTrack::Menu, flow: Flow::Quit }
            },
            Some(Action::Timestamp) => {
                let row: u16 = edited.cursor_position.1;
                let mut body = drawn;
                emit(&mut body, Command::MoveUp(1));
                emit(&mut body, Command::Log(String::new()));
                let (opened, redrawn) = newline(edited, columns);
                emit_all(&mut body, redrawn);
                self.menu = opened;
                self.device_cursor = (self.device_cursor.0, row - 1);
                assert(commands_view(body@) =~= line_commands(edited_view, columns) + seq![
                    CommandView::MoveUp(1),
                    CommandView::Log(Seq::<char>::empty()),
                ] + newline_commands(edited_view, columns));
                Step { commands: frame(body), track: CursorTrack::Menu, flow: Flow::Continue }
            },
            _ => {
                self.menu = edited;
                Step { commands: frame(drawn), track: CursorTrack::Menu, flow: Flow::Continue }
            },
        }
    }

    /// Handles one item read from the input stream during communication, on
    /// a terminal `columns` wide.
    pub fn on_key(&mut self, read: &Option<Result<InputEvent, InputFailure>>, columns: u16) -> (step:
        Step)
        requires
            old(self).wf(),
        ensures
            final(self).wf(),
            final(self)@ == key_outcome(old(self)@, *read, columns).state,
            step@ == key_outcome(old(self)@, *read, columns).step,
    {
        match read {
            Some(Ok(event)) => match handle_event(event) {
                KeyboardInputAction::Chars(bytes) => {
                    if self.menu.is_open {
                        self.menu_key(*event, columns)
                    } else {
                        let mut body = no_commands();
                        emit(&mut body, Command::Transmit(bytes));
                        assert(commands_view(body@) =~= seq![CommandView::Transmit(bytes@)]);
                        Step {
                            commands: frame(body),
                            track: CursorTrack::Neither,
                            flow: Flow::Continue,
                        }
                    }
                },
                KeyboardInputAction::Menu => self.toggle_menu(columns),
                KeyboardInputAction::NoAction => Step {
                    commands: frame(no_commands()),
                    track: CursorTrack::Neither,
                    flow: Flow::Continue,
                },
                KeyboardInputAction::KeypressError => input_error(),
            },
            _ => input_error(),
        }
    }

    /// Handles a failed read from the device; `detail` is the failure as the
    /// status line is to show it.
    pub fn on_read_failure(&mut self, kind: ErrorKind, detail: &str) -> (step: Step)
        requires
            old(self).wf(),
        ensures
            final(self).wf(),
            final(self)@ == read_failure_outcome(old(self)@, kind, detail@).state,
            step@ == read_failure_outcome(old(self)@, kind, detail@).step,
    {
        if kind.is_disconnect() {
            self.connection = begin_connect(Some(kind));
            Step {
                commands: frame(no_commands()),
                track: CursorTrack::Neither,
                flow: Flow::Reconnect,
            }
        } else {
            let mut body = no_commands();
            emit(&mut body, Command::Log(String::from_str("Serial RX Error: ").concat(detail)));
            assert(commands_view(body@) =~= seq![
                CommandView::Log("Serial RX Error: "@ + detail@),
            ]);
            Step { commands: frame(body), track: CursorTrack::Neither, flow: Flow::Continue }
        }
    }

    /// Ends a step that goes on. `track` is the cursor the step moved and
    /// `reported` the position the terminal gave after the step's commands
    /// were performed, if it was asked.
    pub fn settle(&mut self, track: CursorTrack, reported: Option<(u16, u16)>) -> (commands: Vec<
        Command,
    >)
        requires
            old(self).wf(),
        ensures
            final(self).wf(),
            final(self)@ == settled(old(self)@, track, reported),
            commands_view(commands@) == settle_commands(final(self)@),
    {
        match reported {
            Some(position) => {
                let row_free: bool = !self.menu.is_open;
                match track {
                    CursorTrack::Neither => {},
                    CursorTrack::Device => {
                        let row: u16 = if row_free {
                            position.1
                        } else {
                            self.device_cursor.1
                        };
                        self.device_cursor = (position.0, row);
                    },
                    CursorTrack::Menu => {
                        let row: u16 = if row_free {
                            position.1
                        } else {
                            self.menu.cursor_position.1
                        };
                        self.menu.cursor_position = (position.0, row);
                    },
                }
            },
            None => {},
        }
        let active: (u16, u16) = if self.menu.is_open {
            self.menu.cursor_position
        } else {
            self.device_cursor
        };
        let mut commands = no_commands();
        emit(&mut commands, Command::MoveTo(active.0, active.1));
        emit(&mut commands, Command::ShowCursor);
        assert(commands_view(commands@) =~= settle_commands(self@));
        commands
    }
}

} // verus!
