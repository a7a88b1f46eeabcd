//! Data-only instructions for the terminal and the device. The logic decides
//! what to draw and send; the program that owns the terminal performs it.

use vstd::prelude::*;

verus! {

/// One instruction for the program that owns the terminal and the device.
#[derive(Debug, PartialEq, Eq)]
pub enum Command {
    /// Move the terminal cursor to a column and a row, both counted from 0.
    MoveTo(u16, u16),
    /// Move the terminal cursor up by a number of rows.
    MoveUp(u16),
    /// Move the terminal cursor left by a number of columns.
    MoveLeft(u16),
    /// Draw text at the terminal cursor.
    Print(String),
    /// Draw device data at the terminal cursor, each byte as the character
    /// with that code point.
    PrintBytes(Vec<u8>),
    /// Clear the row the terminal cursor is on.
    ClearLine,
    /// Switch to the colours of the menu row and of status lines.
    MenuColors,
    /// Switch back to the terminal's own colours.
    ResetColors,
    HideCursor,
    ShowCursor,
    /// Write out everything queued so far.
    Flush,
    /// Hand a message to the status logger.
    Log(String),
    /// Send bytes to the device.
    Transmit(Vec<u8>),
}

/// Mathematical value of a `Command`.
pub enum CommandView {
    MoveTo(u16, u16),
    MoveUp(u16),
    MoveLeft(u16),
    Print(Seq<char>),
    PrintBytes(Seq<u8>),
    ClearLine,
    MenuColors,
    ResetColors,
    HideCursor,
    ShowCursor,
    Flush,
    Log(Seq<char>),
    Transmit(Seq<u8>),
}

impl View for Command {
    type V = CommandView;

    open spec fn view(&self) -> CommandView {
        match self {
            Command::MoveTo(column, row) => CommandView::MoveTo(*column, *row),
            Command::MoveUp(rows) => CommandView::MoveUp(*rows),
            Command::MoveLeft(columns) => CommandView::MoveLeft(*columns),
            Command::Print(text) => CommandView::Print(text@),
            Command::PrintBytes(bytes) => CommandView::PrintBytes(bytes@),
            Command::ClearLine => CommandView::ClearLine,
            Command::MenuColors => CommandView::MenuColors,
            Command::ResetColors => CommandView::ResetColors,
            Command::HideCursor => CommandView::HideCursor,
            Command::ShowCursor => CommandView::ShowCursor,
            Command::Flush => CommandView::Flush,
            Command::Log(message) => CommandView::Log(message@),
            Command::Transmit(bytes) => CommandView::Transmit(bytes@),
        }
    }
}

/// The values of a list of commands, in order.
pub open spec fn commands_view(commands: Seq<Command>) -> Seq<CommandView> {
    commands.map_values(|c: Command| c@)
}

/// Appends one command to a list.
pub fn emit(commands: &mut Vec<Command>, command: Command)
    ensures
        commands_view(final(commands)@) == commands_view(old(commands)@).push(command@),
{
    commands.push(command);
    assert(commands_view(commands@) =~= commands_view(old(commands)@).push(command@));
}

/// Appends a list of commands to another.
pub fn emit_all(commands: &mut Vec<Command>, more: Vec<Command>)
    ensures
        commands_view(final(commands)@) == commands_view(old(commands)@) + commands_view(more@),
{
    let mut more = more;
    let ghost added = more@;
    commands.append(&mut more);
    assert(commands_view(commands@) =~= commands_view(old(commands)@) + commands_view(added));
}

/// An empty list of commands.
pub fn no_commands() -> (commands: Vec<Command>)
    ensures
        commands_view(commands@) == Seq::<CommandView>::empty(),
{
    let commands: Vec<Command> = Vec::new();
    assert(commands_view(commands@) =~= Seq::<CommandView>::empty());
    commands
}

/// How many of the commands hand a message to the status logger.
pub open spec fn log_count(commands: Seq<CommandView>) -> nat
    decreases commands.len(),
{
    if commands.len() == 0 {
        0
    } else {
        let rest = log_count(commands.drop_last());
        if commands.last() is Log {
            rest + 1
        } else {
            rest
        }
    }
}

/// A row of `width` blanks.
pub open spec fn blank_row(width: nat) -> Seq<char> {
    Seq::new(width, |i: int| ' ')
}

/// Builds a row of `width` blanks, as wide as the terminal.
pub fn make_blank_row(width: u16) -> (row: String)
    ensures
        row@ == blank_row(width as nat),
{
    let mut row = String::new();
    let mut done: u16 = 0;
    proof {
        reveal_strlit(" ");
    }
    while done < width
        invariant
            done <= width,
            row@ == blank_row(done as nat),
            " "@ == seq![' '],
        decreases width - done,
    {
        row.append(" ");
        done = done + 1;
        assert(row@ =~= blank_row(done as nat));
    }
    row
}

} // verus!
