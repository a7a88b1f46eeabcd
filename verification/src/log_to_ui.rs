//! The status line: one message, with the time it was logged, drawn in the
//! menu's colours on a line of its own.

use vstd::prelude::*;
use vstd::string::StringExecFns;
use crate::render::commands_view;
use crate::render::emit;
use crate::render::no_commands;
use crate::render::Command;
use crate::render::CommandView;

verus! {

/// `chrono::offset::Local::now`, written out with `format` as hour, minute,
/// second and millisecond. Nothing is claimed of the text: it depends on the
/// clock and on the time zone of the machine.
#[verifier::external_body]
fn time_of_day() -> (text: String) {
    chrono::offset::Local::now().format("%H:%M:%S%.3f").to_string()
}

/// The commands that draw the status line of `msg` logged at `timestamp`:
/// on a new line, in the menu's colours, the time in square brackets and
/// the message; then the terminal's own colours and a line break.
pub open spec fn log_commands(timestamp: Seq<char>, msg: Seq<char>) -> Seq<CommandView> {
    seq![
        CommandView::HideCursor,
        CommandView::MenuColors,
        CommandView::Print("\r\n["@ + timestamp + "] "@),
        CommandView::Print(msg),
        CommandView::ResetColors,
        CommandView::Print("\r\n"@),
        CommandView::ShowCursor,
    ]
}

/// Lays out the status line of `msg`; `timestamp` is the time of day as the
/// line is to show it.
pub fn log_line(timestamp: &str, msg: String) -> (commands: Vec<Command>)
    ensures
        commands_view(commands@) == log_commands(timestamp@, msg@),
{
    let mut stamp = String::from_str("\r\n[");
    stamp.append(timestamp);
    stamp.append("] ");
    let mut commands = no_commands();
    emit(&mut commands, Command::HideCursor);
    emit(&mut commands, Command::MenuColors);
    emit(&mut commands, Command::Print(stamp));
    emit(&mut commands, Command::Print(msg));
    emit(&mut commands, Command::ResetColors);
    emit(&mut commands, Command::Print(String::from_str("\r\n")));
    emit(&mut commands, Command::ShowCursor);
    assert(commands_view(commands@) =~= log_commands(timestamp@, msg@));
    commands
}

/// Lays out the status line of `msg`, logged now. Whatever the clock says,
/// the commands are those of `log_line` for some time of day.
pub fn print_log_to_stdout(msg: String) -> (commands: Vec<Command>)
    ensures
        exists|timestamp: Seq<char>| commands_view(commands@) == log_commands(timestamp, msg@),
{
    let now = time_of_day();
    log_line(now.as_str(), msg)
}

} // verus!
