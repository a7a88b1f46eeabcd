//! The connection manager: what to log and draw while the port is opened
//! again and again until it answers.
//!
//! The program tries to open the port, tells this module how the attempt
//! ended, performs the commands it gets back, and waits `RETRY_INTERVAL_MS`
//! before the next attempt.

use vstd::prelude::*;
use vstd::string::StringExecFns;
use vstd::string::StrSliceExecFns;
use terminal_spinner_data::DOTS12;
use crate::render::commands_view;
use crate::render::emit;
use crate::render::log_count;
use crate::render::no_commands;
use crate::render::Command;
use crate::render::CommandView;

verus! {

/// Milliseconds between two attempts to open the port.
pub const RETRY_INTERVAL_MS: u64 = 80;

/// Number of frames of the progress animation.
pub const SPINNER_FRAMES: u32 = 56;

/// The kinds of I/O failure the session tells apart.
#[derive(Clone, Copy, Debug, PartialEq, Eq)]
pub enum ErrorKind {
    PermissionDenied,
    TimedOut,
    WouldBlock,
    Other,
}

/// Where the serial link stands.
#[derive(Clone, Copy, Debug, PartialEq, Eq)]
pub enum ConnectionState {
    Disconnected,
    /// The port is being opened. `attempts` counts the failed attempts of
    /// this cycle, `last_error` is the failure that ended the previous
    /// connection, `animation_frame` is the frame of the animation on
    /// screen.
    Connecting { attempts: u32, last_error: Option<ErrorKind>, animation_frame: u32 },
    Connected,
}

/// The text of frame `index` of the progress animation.
pub uninterp spec fn spinner_frame_text(index: int) -> Seq<char>;

/// Reads frame `index` of `terminal_spinner_data::DOTS12`, an animation of
/// 56 frames. Nothing is claimed of the text but that it is the frame of
/// that index.
#[verifier::external_body]
fn spinner_frame(index: u32) -> (frame: String)
    requires
        index < SPINNER_FRAMES,
    ensures
        frame@ == spinner_frame_text(index as int),
{
    String::from(DOTS12.frames[index as usize])
}

/// How a failure kind reads in a status line.
pub open spec fn error_kind_text(kind: ErrorKind) -> Seq<char> {
    match kind {
        ErrorKind::PermissionDenied => "permission denied"@,
        ErrorKind::TimedOut => "timed out"@,
        ErrorKind::WouldBlock => "operation would block"@,
        ErrorKind::Other => "other error"@,
    }
}

/// A failure of the link that a reconnect can cure.
pub open spec fn is_transient(kind: ErrorKind) -> bool {
    kind == ErrorKind::PermissionDenied || kind == ErrorKind::TimedOut
}

impl ErrorKind {
    /// How this kind reads in a status line.
    pub fn description(&self) -> (text: String)
        ensures
            text@ == error_kind_text(*self),
    {
        match self {
            ErrorKind::PermissionDenied => String::from_str("permission denied"),
            ErrorKind::TimedOut => String::from_str("timed out"),
            ErrorKind::WouldBlock => String::from_str("operation would block"),
            ErrorKind::Other => String::from_str("other error"),
        }
    }

    /// Whether the link is to be opened again after this failure.
    pub fn is_disconnect(&self) -> (transient: bool)
        ensures
            transient == is_transient(*self),
    {
        match self {
            ErrorKind::PermissionDenied | ErrorKind::TimedOut => true,
            _ => false,
        }
    }
}

/// The status line of the first failed attempt of a cycle.
pub open spec fn waiting_message(port: Seq<char>, last_error: Option<ErrorKind>) -> Seq<char> {
    match last_error {
        Some(kind) => port + " error '"@ + error_kind_text(kind) + "', waiting"@,
        None => "Waiting for "@ + port,
    }
}

/// The status line of a successful attempt.
pub open spec fn connected_message(port: Seq<char>) -> Seq<char> {
    "Connected to "@ + port
}

/// The index of the frame on screen: a counter beyond the animation's
/// length counts round it.
pub open spec fn shown_frame(animation_frame: u32) -> u32 {
    animation_frame % SPINNER_FRAMES
}

/// The frame after `animation_frame`, the first one again after the last.
pub open spec fn next_frame(animation_frame: u32) -> u32 {
    (shown_frame(animation_frame) + 1) as u32 % SPINNER_FRAMES
}

/// How many columns the frame on screen takes, held at the largest distance
/// a command can name.
pub open spec fn frame_width(animation_frame: u32) -> u16 {
    let length = spinner_frame_text(shown_frame(animation_frame) as int).len();
    if length > u16::MAX {
        u16::MAX
    } else {
        length as u16
    }
}

/// The start of a connection cycle after the failure `prior_error`, or of
/// the first one if there was none.
pub open spec fn fresh_cycle(prior_error: Option<ErrorKind>) -> ConnectionState {
    ConnectionState::Connecting { attempts: 0, last_error: prior_error, animation_frame: 0 }
}

/// The state after a failed attempt: one more attempt is counted, up to the
/// largest count, and from the second failure on the animation moves on by
/// one frame. Outside a cycle nothing changes.
pub open spec fn after_failure(state: ConnectionState) -> ConnectionState {
    match state {
        ConnectionState::Connecting { attempts, last_error, animation_frame } => {
            ConnectionState::Connecting {
                attempts: if attempts == u32::MAX {
                    u32::MAX
                } else {
                    (attempts + 1) as u32
                },
                last_error,
                animation_frame: if attempts == 0 {
                    shown_frame(animation_frame)
                } else {
                    next_frame(animation_frame)
                },
            }
        },
        _ => state,
    }
}

/// The commands of a failed attempt. The first failure of a cycle logs one
/// status line, draws the frame and hides the cursor; every later one only
/// steps back over the frame and draws the next one in its place.
pub open spec fn failure_commands(state: ConnectionState, port: Seq<char>) -> Seq<CommandView> {
    match state {
        ConnectionState::Connecting { attempts, last_error, animation_frame } => {
            if attempts == 0 {
                seq![
                    CommandView::Log(waiting_message(port, last_error)),
                    CommandView::Print(spinner_frame_text(shown_frame(animation_frame) as int)),
                    CommandView::HideCursor,
                    CommandView::Flush,
                ]
            } else {
                seq![
                    CommandView::MoveLeft(frame_width(animation_frame)),
                    CommandView::Print(spinner_frame_text(next_frame(animation_frame) as int)),
                    CommandView::Flush,
                ]
            }
        },
        _ => Seq::<CommandView>::empty(),
    }
}

/// The state after a successful attempt.
pub open spec fn after_success(state: ConnectionState) -> ConnectionState {
    match state {
        ConnectionState::Connecting { .. } => ConnectionState::Connected,
        _ => state,
    }
}

/// The commands of a successful attempt: the animation is wiped out, one
/// status line is logged and the cursor is shown again.
pub open spec fn success_commands(state: ConnectionState, port: Seq<char>) -> Seq<CommandView> {
    match state {
        ConnectionState::Connecting { animation_frame, .. } => seq![
            CommandView::MoveLeft(frame_width(animation_frame)),
            CommandView::Print("     "@),
            CommandView::MoveUp(1),
            CommandView::Log(connected_message(port)),
            CommandView::ShowCursor,
        ],
        _ => Seq::<CommandView>::empty(),
    }
}

/// The state after the cycle is given up before the port has answered.
pub open spec fn after_abandon(state: ConnectionState) -> ConnectionState {
    match state {
        ConnectionState::Connecting { .. } => ConnectionState::Disconnected,
        _ => state,
    }
}

/// The commands that leave the terminal in order when a cycle is given up:
/// the animation, if one is on screen, is wiped out, and the cursor is shown.
pub open spec fn abandon_commands(state: ConnectionState) -> Seq<CommandView> {
    match state {
        ConnectionState::Connecting { attempts, animation_frame, .. } => if attempts > 0 {
            seq![
                CommandView::MoveLeft(frame_width(animation_frame)),
                CommandView::Print("     "@),
                CommandView::ShowCursor,
                CommandView::Flush,
            ]
        } else {
            seq![CommandView::ShowCursor, CommandView::Flush]
        },
        _ => Seq::<CommandView>::empty(),
    }
}

/// The commands of a whole cycle: `failures` failed attempts, then a
/// successful one.
pub open spec fn cycle_commands(state: ConnectionState, port: Seq<char>, failures: nat) -> Seq<
    CommandView,
>
    decreases failures,
{
    if failures == 0 {
        success_commands(state, port)
    } else {
        failure_commands(state, port) + cycle_commands(
            after_failure(state),
            port,
            (failures - 1) as nat,
        )
    }
}

/// The state at the end of a whole cycle.
pub open spec fn cycle_end(state: ConnectionState, failures: nat) -> ConnectionState
    decreases failures,
{
    if failures == 0 {
        after_success(state)
    } else {
        cycle_end(after_failure(state), (failures - 1) as nat)
    }
}

fn frame_columns(frame: &String) -> (width: u16)
    ensures
        width == if frame@.len() > u16::MAX {
            u16::MAX
        } else {
            frame@.len() as u16
        },
{
    let length: usize = frame.as_str().unicode_len();
    if length > 0xFFFF {
        0xFFFF
    } else {
        length as u16
    }
}

/// Starts a connection cycle. `prior_error` is the failure that ended the
/// previous connection, if there was one.
pub fn begin_connect(prior_error: Option<ErrorKind>) -> (state: ConnectionState)
    ensures
        state == fresh_cycle(prior_error),
{
    ConnectionState::Connecting { attempts: 0, last_error: prior_error, animation_frame: 0 }
}

/// An attempt to open `port` has failed.
pub fn attempt_failed(state: ConnectionState, port: &str) -> (next: (ConnectionState, Vec<Command>))
    ensures
        next.0 == after_failure(state),
        commands_view(next.1@) == failure_commands(state, port@),
{
    let mut commands = no_commands();
    match state {
        ConnectionState::Connecting { attempts, last_error, animation_frame } => {
            let shown: u32 = animation_frame % SPINNER_FRAMES;
            if attempts == 0 {
                let message = match last_error {
                    Some(kind) => {
                        let mut text = String::from_str(port);
                        text.append(" error '");
                        text.append(kind.description().as_str());
                        text.append("', waiting");
                        text
                    },
                    None => String::from_str("Waiting for ").concat(port),
                };
                emit(&mut commands, Command::Log(message));
                emit(&mut commands, Command::Print(spinner_frame(shown)));
                emit(&mut commands, Command::HideCursor);
                emit(&mut commands, Command::Flush);
                assert(commands_view(commands@) =~= failure_commands(state, port@));
                (
                    ConnectionState::Connecting {
                        attempts: 1,
                        last_error,
                        animation_frame: shown,
                    },
                    commands,
                )
            } else {
                let next: u32 = (shown + 1) % SPINNER_FRAMES;
                let width: u16 = frame_columns(&spinner_frame(shown));
                emit(&mut commands, Command::MoveLeft(width));
                emit(&mut commands, Command::Print(spinner_frame(next)));
                emit(&mut commands, Command::Flush);
                assert(commands_view(commands@) =~= failure_commands(state, port@));
                (
                    ConnectionState::Connecting {
                        attempts: attempts.saturating_add(1),
                        last_error,
                        animation_frame: next,
                    },
                    commands,
                )
            }
        },
        _ => (state, commands),
    }
}

/// An attempt to open `port` has succeeded.
pub fn attempt_succeeded(state: ConnectionState, port: &str) -> (next: (
    ConnectionState,
    Vec<Command>,
))
    ensures
        next.0 == after_success(state),
        commands_view(next.1@) == success_commands(state, port@),
{
    let mut commands = no_commands();
    match state {
        ConnectionState::Connecting { attempts, last_error, animation_frame } => {
            let shown: u32 = animation_frame % SPINNER_FRAMES;
            let width: u16 = frame_columns(&spinner_frame(shown));
            emit(&mut commands, Command::MoveLeft(width));
            emit(&mut commands, Command::Print(String::from_str("     ")));
            emit(&mut commands, Command::MoveUp(1));
            emit(&mut commands, Command::Log(String::from_str("Connected to ").concat(port)));
            emit(&mut commands, Command::ShowCursor);
            assert(commands_view(commands@) =~= success_commands(state, port@));
            (ConnectionState::Connected, commands)
        },
        _ => (state, commands),
    }
}

/// The cycle is given up before the port has answered.
pub fn abandon_connect(state: ConnectionState) -> (next: (ConnectionState, Vec<Command>))
    ensures
        next.0 == after_abandon(state),
        commands_view(next.1@) == abandon_commands(state),
{
    let mut commands = no_commands();
    match state {
        ConnectionState::Connecting { attempts, last_error, animation_frame } => {
            if attempts > 0 {
                let shown: u32 = animation_frame % SPINNER_FRAMES;
                let width: u16 = frame_columns(&spinner_frame(shown));
                emit(&mut commands, Command::MoveLeft(width));
                emit(&mut commands, Command::Print(String::from_str("     ")));
            }
            emit(&mut commands, Command::ShowCursor);
            emit(&mut commands, Command::Flush);
            assert(commands_view(commands@) =~= abandon_commands(state));
            (ConnectionState::Disconnected, commands)
        },
        _ => (state, commands),
    }
}

/// Counting status lines goes through concatenation.
pub proof fn lemma_log_count_concat(first: Seq<CommandView>, second: Seq<CommandView>)
    ensures
        log_count(first + second) == log_count(first) + log_count(second),
    decreases second.len(),
{
    if second.len() == 0 {
        assert(first + second =~= first);
    } else {
        lemma_log_count_concat(first, second.drop_last());
        assert((first + second).drop_last() =~= first + second.drop_last());
        assert((first + second).last() == second.last());
    }
}

/// A failed attempt logs one status line if it is the first of its cycle and
/// none otherwise; a successful one logs exactly one.
pub proof fn lemma_attempt_log_counts(state: ConnectionState, port: Seq<char>)
    requires
        state is Connecting,
    ensures
        log_count(failure_commands(state, port)) == if state->attempts == 0 {
            1nat
        } else {
            0nat
        },
        log_count(success_commands(state, port)) == 1,
{
    reveal_with_fuel(log_count, 6);
    let failed = failure_commands(state, port);
    let succeeded = success_commands(state, port);
    if state->attempts == 0 {
        assert(failed.drop_last().drop_last().drop_last().drop_last() =~= Seq::<
            CommandView,
        >::empty());
    } else {
        assert(failed.drop_last().drop_last().drop_last() =~= Seq::<CommandView>::empty());
    }
    assert(succeeded.drop_last().drop_last().drop_last().drop_last().drop_last() =~= Seq::<
        CommandView,
    >::empty());
}

/// Once an attempt of a cycle has failed, the rest of the cycle logs one
/// status line, however many attempts follow.
pub proof fn lemma_rest_of_cycle_logs_once(state: ConnectionState, port: Seq<char>, failures: nat)
    requires
        state is Connecting,
        state->attempts > 0,
    ensures
        log_count(cycle_commands(state, port, failures)) == 1,
        cycle_end(state, failures) == ConnectionState::Connected,
    decreases failures,
{
    lemma_attempt_log_counts(state, port);
    if failures > 0 {
        lemma_rest_of_cycle_logs_once(after_failure(state), port, (failures - 1) as nat);
        lemma_log_count_concat(
            failure_commands(state, port),
            cycle_commands(after_failure(state), port, (failures - 1) as nat),
        );
    }
}

/// A connection cycle that starts afresh ends connected and logs one status
/// line if the first attempt succeeds and two if it fails, however many
/// failed attempts follow the first: the line that says it waits, and the
/// line that says it is connected. If any attempt fails, the first frame of
/// the animation is drawn right after the first line.
pub proof fn lemma_cycle_logs(prior_error: Option<ErrorKind>, port: Seq<char>, failures: nat)
    ensures
        cycle_end(fresh_cycle(prior_error), failures) == ConnectionState::Connected,
        log_count(cycle_commands(fresh_cycle(prior_error), port, failures)) == if failures == 0 {
            1nat
        } else {
            2nat
        },
        failures > 0 ==> {
            let commands = cycle_commands(fresh_cycle(prior_error), port, failures);
            &&& commands.len() >= 2
            &&& commands[0] == CommandView::Log(waiting_message(port, prior_error))
            &&& commands[1] == CommandView::Print(spinner_frame_text(0))
        },
{
    let start = fresh_cycle(prior_error);
    lemma_attempt_log_counts(start, port);
    if failures > 0 {
        lemma_rest_of_cycle_logs_once(after_failure(start), port, (failures - 1) as nat);
        lemma_log_count_concat(
            failure_commands(start, port),
            cycle_commands(after_failure(start), port, (failures - 1) as nat),
        );
    }
}

} // verus!
