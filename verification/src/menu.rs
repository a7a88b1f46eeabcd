//! The command menu: a one-line editor for a fixed set of local commands,
//! drawn on a row of its own.

use vstd::prelude::*;
use vstd::string::StringExecFns;
use crate::keyboard_input::InputEvent;
use crate::keyboard_input::KeyCode;
use crate::render::blank_row;
use crate::render::commands_view;
use crate::render::emit;
use crate::render::make_blank_row;
use crate::render::no_commands;
use crate::render::Command;
use crate::render::CommandView;

verus! {

/// What a menu command asks the session to do.
#[derive(Clone, Copy, Debug, PartialEq, Eq)]
pub enum Action {
    Quit,
    Timestamp,
    Help,
}

/// The menu line: whether it is shown, the command typed so far, where its
/// cursor stands, the action of the last Enter, and the error on display.
#[derive(Debug)]
pub struct MenuState {
    pub is_open: bool,
    pub command: String,
    pub cursor_position: (u16, u16),
    pub action: Option<Action>,
    pub error: Option<String>,
}

/// Mathematical value of a `MenuState`.
pub struct MenuStateView {
    pub is_open: bool,
    pub command: Seq<char>,
    pub cursor_position: (u16, u16),
    pub action: Option<Action>,
    pub error: Option<Seq<char>>,
}

impl View for MenuState {
    type V = MenuStateView;

    open spec fn view(&self) -> MenuStateView {
        MenuStateView {
            is_open: self.is_open,
            command: self.command@,
            cursor_position: self.cursor_position,
            action: self.action,
            error: match self.error {
                Some(message) => Some(message@),
                None => None,
            },
        }
    }
}

/// The action a command names. Commands match exactly and by case.
pub open spec fn command_action(command: Seq<char>) -> Option<Action> {
    if command == "quit"@ || command == "q"@ {
        Some(Action::Quit)
    } else if command == "timestamp"@ || command == "ts"@ {
        Some(Action::Timestamp)
    } else if command == "help"@ || command == "h"@ || command == "?"@ {
        Some(Action::Help)
    } else {
        None
    }
}

/// The message shown in place of a command that names no action.
pub open spec fn unknown_command_message(command: Seq<char>) -> Seq<char> {
    command + " is an unknown command"@
}

/// The text on the menu row after the prompt: the error if one is on
/// display, else the command.
pub open spec fn displayed_text(menu: MenuStateView) -> Seq<char> {
    match menu.error {
        Some(message) => message,
        None => menu.command,
    }
}

/// One column further, held at the last column a position can name.
pub open spec fn advanced_column(column: u16) -> u16 {
    if column == u16::MAX {
        u16::MAX
    } else {
        (column + 1) as u16
    }
}

/// The state of a closed menu at a position: no command, no action, no error.
pub open spec fn fresh_menu(position: (u16, u16)) -> MenuStateView {
    MenuStateView {
        is_open: false,
        command: Seq::<char>::empty(),
        cursor_position: position,
        action: None,
        error: None,
    }
}

/// The state after the menu line is opened, or drawn again, on its row: the
/// command typed so far and the cursor position stay, action and error are
/// reset.
pub open spec fn opened_menu(menu: MenuStateView) -> MenuStateView {
    MenuStateView { is_open: true, action: None, error: None, ..menu }
}

/// The state after the menu is closed: command, action and error are reset.
pub open spec fn closed_menu(menu: MenuStateView) -> MenuStateView {
    MenuStateView {
        is_open: false,
        command: Seq::<char>::empty(),
        action: None,
        error: None,
        ..menu
    }
}

/// The state after Enter.
///
/// With an error on display, Enter only dismisses it: nothing runs and the
/// command line is emptied. Otherwise a known command sets the action and
/// empties the command line, and an unknown one puts the error on display
/// and keeps the command.
pub open spec fn after_enter(menu: MenuStateView) -> MenuStateView {
    if menu.error is Some {
        MenuStateView { command: Seq::<char>::empty(), action: None, error: None, ..menu }
    } else {
        match command_action(menu.command) {
            Some(action) => MenuStateView {
                command: Seq::<char>::empty(),
                action: Some(action),
                error: None,
                ..menu
            },
            None => MenuStateView {
                action: None,
                error: Some(unknown_command_message(menu.command)),
                ..menu
            },
        }
    }
}

/// The state after an input event reaches the open menu.
///
/// A character key appends its character and moves the cursor on by one
/// column, up to the last column a position can name. Backspace removes the
/// last character if there is one, Enter is `after_enter`; these and every
/// other event leave the cursor where it is. Every event but an Enter that
/// finds an unknown command leaves no error on display, and every event but
/// an Enter that finds a known command leaves no action.
pub open spec fn after_event(menu: MenuStateView, event: InputEvent) -> MenuStateView {
    let base = MenuStateView { is_open: true, action: None, ..menu };
    let quiet = MenuStateView { error: None, ..base };
    match event {
        InputEvent::Key(key) => match key.code {
            KeyCode::Char(c) => MenuStateView {
                command: menu.command.push(c),
                cursor_position: (advanced_column(menu.cursor_position.0), menu.cursor_position.1),
                ..quiet
            },
            KeyCode::Enter => after_enter(base),
            KeyCode::Backspace => if menu.command.len() > 0 {
                MenuStateView { command: menu.command.drop_last(), ..quiet }
            } else {
                quiet
            },
            _ => quiet,
        },
        _ => quiet,
    }
}

/// The commands that draw the menu row afresh: the row is cleared, filled
/// with the menu's background as wide as the terminal, and the prompt and
/// the displayed text are drawn from its first column.
pub open spec fn line_commands(menu: MenuStateView, columns: u16) -> Seq<CommandView> {
    seq![
        CommandView::MoveTo(0, menu.cursor_position.1),
        CommandView::ClearLine,
        CommandView::MenuColors,
        CommandView::Print(blank_row(columns as nat)),
        CommandView::MoveTo(0, menu.cursor_position.1),
        CommandView::Print(": "@),
        CommandView::Print(displayed_text(menu)),
        CommandView::ResetColors,
    ]
}

/// The commands that open the menu row: a line feed makes room, then the
/// row is filled and the prompt and the command are drawn.
pub open spec fn newline_commands(menu: MenuStateView, columns: u16) -> Seq<CommandView> {
    seq![
        CommandView::Print("\n"@),
        CommandView::MoveTo(0, menu.cursor_position.1),
        CommandView::MenuColors,
        CommandView::Print(blank_row(columns as nat)),
        CommandView::MoveTo(0, menu.cursor_position.1),
        CommandView::Print(": "@),
        CommandView::Print(menu.command),
        CommandView::ResetColors,
    ]
}

/// The commands that clear the menu row.
pub open spec fn close_commands(menu: MenuStateView) -> Seq<CommandView> {
    seq![CommandView::MoveTo(3, menu.cursor_position.1), CommandView::ClearLine]
}

/// The command table: each of the seven commands names its action.
pub proof fn lemma_command_table()
    ensures
        command_action("quit"@) == Some(Action::Quit),
        command_action("q"@) == Some(Action::Quit),
        command_action("timestamp"@) == Some(Action::Timestamp),
        command_action("ts"@) == Some(Action::Timestamp),
        command_action("help"@) == Some(Action::Help),
        command_action("h"@) == Some(Action::Help),
        command_action("?"@) == Some(Action::Help),
        command_action(Seq::<char>::empty()) is None,
{
    reveal_strlit("quit");
    reveal_strlit("q");
    reveal_strlit("timestamp");
    reveal_strlit("ts");
    reveal_strlit("help");
    reveal_strlit("h");
    reveal_strlit("?");
    assert("quit"@.len() == 4 && "quit"@[0] == 'q');
    assert("q"@.len() == 1 && "q"@[0] == 'q');
    assert("timestamp"@.len() == 9 && "timestamp"@[0] == 't');
    assert("ts"@.len() == 2 && "ts"@[0] == 't');
    assert("help"@.len() == 4 && "help"@[0] == 'h');
    assert("h"@.len() == 1 && "h"@[0] == 'h');
    assert("?"@.len() == 1 && "?"@[0] == '?');
}

/// Enter on a known command, with no error on display, sets the command's
/// action and leaves an empty command line with no error.
pub proof fn lemma_known_command_dispatches(menu: MenuStateView, action: Action)
    requires
        menu.error is None,
        command_action(menu.command) == Some(action),
    ensures
        ({
            let enter = InputEvent::Key(
                crate::keyboard_input::KeyPress { code: KeyCode::Enter, control: false },
            );
            let after = after_event(menu, enter);
            &&& after.is_open
            &&& after.action == Some(action)
            &&& after.error is None
            &&& after.command == Seq::<char>::empty()
        }),
{
}

/// Enter on an unknown command, with no error on display, puts the error on
/// display and keeps the command; a second Enter dismisses the error, runs
/// nothing and leaves an empty command line; and so does every Enter on a
/// menu that has an error on display.
pub proof fn lemma_enter_dismisses_error(menu: MenuStateView)
    ensures
        ({
            let enter = InputEvent::Key(
                crate::keyboard_input::KeyPress { code: KeyCode::Enter, control: false },
            );
            let once = after_event(menu, enter);
            let twice = after_event(once, enter);
            &&& menu.error is None && command_action(menu.command) is None ==> {
                &&& once.is_open
                &&& once.action is None
                &&& once.command == menu.command
                &&& once.error == Some(unknown_command_message(menu.command))
                &&& twice.is_open
                &&& twice.action is None
                &&& twice.error is None
                &&& twice.command == Seq::<char>::empty()
                &&& twice.cursor_position == menu.cursor_position
            }
            &&& menu.error is Some ==> {
                &&& once.is_open
                &&& once.action is None
                &&& once.error is None
                &&& once.command == Seq::<char>::empty()
                &&& once.cursor_position == menu.cursor_position
            }
        }),
{
}

/// Whether every command that names a row names `row`.
pub open spec fn stays_on_row(commands: Seq<CommandView>, row: u16) -> bool {
    forall|i: int|
        0 <= i < commands.len() ==> (#[trigger] commands[i] matches CommandView::MoveTo(_, named)
            ==> named == row)
}

/// The menu never leaves its row: opening, closing and every event keep the
/// row of the menu cursor, and all they draw goes to that row.
pub proof fn lemma_menu_stays_on_its_row(menu: MenuStateView, event: InputEvent, columns: u16)
    ensures
        opened_menu(menu).cursor_position.1 == menu.cursor_position.1,
        closed_menu(menu).cursor_position.1 == menu.cursor_position.1,
        after_event(menu, event).cursor_position.1 == menu.cursor_position.1,
        stays_on_row(newline_commands(menu, columns), menu.cursor_position.1),
        stays_on_row(close_commands(menu), menu.cursor_position.1),
        stays_on_row(line_commands(after_event(menu, event), columns), menu.cursor_position.1),
{
}

/// A character key appends its character and moves the menu cursor on by
/// one column, up to the last column a position can name; every other event
/// leaves the cursor where it is, and every event but a character key,
/// Backspace and Enter leaves the command as it is.
pub proof fn lemma_typing_advances_cursor(menu: MenuStateView, event: InputEvent)
    ensures
        ({
            let after = after_event(menu, event);
            let cursor_kept = after.cursor_position == menu.cursor_position;
            let command_kept = after.command == menu.command;
            match event {
                InputEvent::Key(key) => match key.code {
                    KeyCode::Char(c) => {
                        &&& after.command == menu.command.push(c)
                        &&& after.cursor_position.1 == menu.cursor_position.1
                        &&& after.cursor_position.0 == advanced_column(menu.cursor_position.0)
                        &&& menu.cursor_position.0 < u16::MAX ==> after.cursor_position.0
                            == menu.cursor_position.0 + 1
                    },
                    KeyCode::Backspace => cursor_kept,
                    KeyCode::Enter => cursor_kept,
                    _ => cursor_kept && command_kept,
                },
                _ => cursor_kept && command_kept,
            }
        }),
{
}

/// Opening the menu keeps its position, and so does closing it: a menu that
/// is opened and then closed stands where it stood. Closing twice is closing
/// once.
pub proof fn lemma_open_and_close_keep_position(menu: MenuStateView)
    ensures
        opened_menu(menu).cursor_position == menu.cursor_position,
        closed_menu(opened_menu(menu)).cursor_position == menu.cursor_position,
        !closed_menu(opened_menu(menu)).is_open,
        closed_menu(closed_menu(menu)) == closed_menu(menu),
{
}

impl MenuState {
    /// A closed menu at `position`, with an empty command line.
    pub fn new(position: (u16, u16)) -> (menu: MenuState)
        ensures
            menu@ == fresh_menu(position),
    {
        MenuState {
            is_open: false,
            command: String::new(),
            cursor_position: position,
            action: None,
            error: None,
        }
    }

    /// The text on the menu row after the prompt.
    pub fn displayed(&self) -> (text: String)
        ensures
            text@ == displayed_text(self@),
    {
        match &self.error {
            Some(message) => message.clone(),
            None => self.command.clone(),
        }
    }
}

fn text_is(text: &String, literal: &str) -> (same: bool)
    ensures
        same == (text@ == literal@),
{
    let other = String::from_str(literal);
    *text == other
}

/// Looks a command up in the fixed command table.
pub fn lookup_command(command: &String) -> (action: Option<Action>)
    ensures
        action == command_action(command@),
{
    if text_is(command, "quit") || text_is(command, "q") {
        Some(Action::Quit)
    } else if text_is(command, "timestamp") || text_is(command, "ts") {
        Some(Action::Timestamp)
    } else if text_is(command, "help") || text_is(command, "h") || text_is(command, "?") {
        Some(Action::Help)
    } else {
        None
    }
}

/// Opens the menu line on its row, or draws it again there, `columns` wide.
pub fn newline(menu_state: MenuState, columns: u16) -> (opened: (MenuState, Vec<Command>))
    ensures
        opened.0@ == opened_menu(menu_state@),
        commands_view(opened.1@) == newline_commands(menu_state@, columns),
{
    let row: u16 = menu_state.cursor_position.1;
    let mut commands = no_commands();
    emit(&mut commands, Command::Print(String::from_str("\n")));
    emit(&mut commands, Command::MoveTo(0, row));
    emit(&mut commands, Command::MenuColors);
    emit(&mut commands, Command::Print(make_blank_row(columns)));
    emit(&mut commands, Command::MoveTo(0, row));
    emit(&mut commands, Command::Print(String::from_str(": ")));
    emit(&mut commands, Command::Print(menu_state.command.clone()));
    emit(&mut commands, Command::ResetColors);
    assert(commands_view(commands@) =~= newline_commands(menu_state@, columns));
    let state = MenuState {
        is_open: true,
        command: menu_state.command,
        cursor_position: menu_state.cursor_position,
        action: None,
        error: None,
    };
    (state, commands)
}

/// Closes the menu and clears its row.
pub fn close(menu_state: MenuState) -> (closed: (MenuState, Vec<Command>))
    ensures
        closed.0@ == closed_menu(menu_state@),
        commands_view(closed.1@) == close_commands(menu_state@),
{
    let mut commands = no_commands();
    emit(&mut commands, Command::MoveTo(3, menu_state.cursor_position.1));
    emit(&mut commands, Command::ClearLine);
    assert(commands_view(commands@) =~= close_commands(menu_state@));
    let state = MenuState {
        is_open: false,
        command: String::new(),
        cursor_position: menu_state.cursor_position,
        action: None,
        error: None,
    };
    (state, commands)
}

/// Applies one input event to the open menu and draws its row again,
/// `columns` wide.
pub fn handle_chars(menu_state: MenuState, event: InputEvent, columns: u16) -> (handled: (
    MenuState,
    Vec<Command>,
))
    ensures
        handled.0@ == after_event(menu_state@, event),
        commands_view(handled.1@) == line_commands(handled.0@, columns),
{
    let had_error: bool = menu_state.error.is_some();
    let mut new_menu_state = MenuState {
        is_open: true,
        command: menu_state.command,
        cursor_position: menu_state.cursor_position,
        action: None,
        error: None,
    };
    match event {
        InputEvent::Key(key) => {
            match key.code {
                KeyCode::Char(code) => {
                    new_menu_state.command.push(code);
                    new_menu_state.cursor_position = (
                        new_menu_state.cursor_position.0.saturating_add(1),
                        new_menu_state.cursor_position.1,
                    );
                },
                KeyCode::Enter => {
                    if had_error {
                        new_menu_state.command = String::new();
                    } else {
                        match lookup_command(&new_menu_state.command) {
                            Some(action) => {
                                new_menu_state.action = Some(action);
                                new_menu_state.command = String::new();
                            },
                            None => {
                                let message = new_menu_state.command.clone().concat(
                                    " is an unknown command",
                                );
                                new_menu_state.error = Some(message);
                            },
                        }
                    }
                },
                KeyCode::Backspace => {
                    let _ = new_menu_state.command.pop();
                },
                _ => {},
            }
        },
        InputEvent::FocusGained
        | InputEvent::FocusLost
        | InputEvent::Mouse
        | InputEvent::Resize(_, _)
        | InputEvent::Paste => {},
    }
    let text_displayed = new_menu_state.displayed();
    let row: u16 = new_menu_state.cursor_position.1;

    let mut commands = no_commands();
    emit(&mut commands, Command::MoveTo(0, row));
    emit(&mut commands, Command::ClearLine);
    emit(&mut commands, Command::MenuColors);
    emit(&mut commands, Command::Print(make_blank_row(columns)));
    emit(&mut commands, Command::MoveTo(0, row));
    emit(&mut commands, Command::Print(String::from_str(": ")));
    emit(&mut commands, Command::Print(text_displayed));
    emit(&mut commands, Command::ResetColors);
    assert(commands_view(commands@) =~= line_commands(new_menu_state@, columns));
    (new_menu_state, commands)
}

} // verus!
