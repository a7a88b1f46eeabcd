//! What holds of a session over whole runs of events.

use vstd::prelude::*;
use crate::ansi::accepts_byte;
use crate::ansi::emitted;
use crate::ansi::lemma_sequence_is_atomic;
use crate::ansi::pending_after_all;
use crate::ansi::EmitView;
use crate::ansi::ESCAPE;
use crate::ansi::TERMINATOR;
use crate::keyboard_input::event_action;
use crate::keyboard_input::InputEvent;
use crate::keyboard_input::InputFailure;
use crate::render::CommandView;
use crate::serial_connection::after_failure;
use crate::serial_connection::after_success;
use crate::serial_connection::ErrorKind;
use crate::session::device_byte_outcome;
use crate::session::framed;
use crate::session::idle_step;
use crate::session::initial_session;
use crate::session::key_outcome;
use crate::session::read_failure_outcome;
use crate::session::settled;
use crate::session::started;
use crate::session::waiting_key_outcome;
use crate::session::well_formed;
use crate::session::CursorTrack;
use crate::session::Flow;
use crate::session::SessionView;
use crate::session::StepView;

verus! {

/// Everything that can happen to a session.
pub enum SessionEvent {
    /// An attempt to open the port has failed.
    OpenFailed,
    /// An attempt to open the port has succeeded.
    OpenSucceeded,
    /// An item was read from the input stream while the port was being
    /// opened.
    WaitingKey(Option<Result<InputEvent, InputFailure>>),
    /// Communication starts with the terminal cursor at a position.
    Start((u16, u16)),
    /// An item was read from the input stream, on a terminal so many
    /// columns wide.
    Key(Option<Result<InputEvent, InputFailure>>, u16),
    /// A byte was read from the device, on a terminal so many columns wide.
    DeviceByte(u8, u16),
    /// A read from the device has failed.
    ReadFailure(ErrorKind),
    /// The step has ended and the terminal may have reported its cursor.
    Settle(CursorTrack, Option<(u16, u16)>),
}

/// The state after one event. A byte that the session does not accept ends
/// the run and changes nothing.
pub open spec fn after_one(s: SessionView, event: SessionEvent) -> SessionView {
    match event {
        SessionEvent::OpenFailed => SessionView { connection: after_failure(s.connection), ..s },
        SessionEvent::OpenSucceeded => SessionView { connection: after_success(s.connection), ..s },
        SessionEvent::WaitingKey(read) => waiting_key_outcome(s, read).state,
        SessionEvent::Start(position) => started(s, position),
        SessionEvent::Key(read, columns) => key_outcome(s, read, columns).state,
        SessionEvent::DeviceByte(byte, columns) => if accepts_byte(s.pending, byte) {
            device_byte_outcome(s, byte, columns).state
        } else {
            s
        },
        SessionEvent::ReadFailure(kind) => read_failure_outcome(s, kind, Seq::<char>::empty()).state,
        SessionEvent::Settle(track, reported) => settled(s, track, reported),
    }
}

/// The state after a run of events.
pub open spec fn after_events(s: SessionView, events: Seq<SessionEvent>) -> SessionView
    decreases events.len(),
{
    if events.len() == 0 {
        s
    } else {
        after_one(after_events(s, events.drop_last()), events.last())
    }
}

/// One event keeps a session well formed.
pub proof fn lemma_event_keeps_well_formed(s: SessionView, event: SessionEvent)
    requires
        well_formed(s),
    ensures
        well_formed(after_one(s, event)),
{
}

/// A run of events keeps a session well formed.
pub proof fn lemma_events_keep_well_formed(s: SessionView, events: Seq<SessionEvent>)
    requires
        well_formed(s),
    ensures
        well_formed(after_events(s, events)),
    decreases events.len(),
{
    if events.len() > 0 {
        lemma_events_keep_well_formed(s, events.drop_last());
        lemma_event_keeps_well_formed(after_events(s, events.drop_last()), events.last());
    }
}

/// The device cursor and the menu cursor never share a row while the menu
/// is open: after any part of any run of events from the start of a
/// session, an open menu has the row directly below the device cursor.
pub proof fn lemma_rows_never_collide(events: Seq<SessionEvent>, upto: int)
    requires
        0 <= upto <= events.len(),
    ensures
        ({
            let s = after_events(initial_session(), events.take(upto));
            s.menu.is_open ==> s.device_cursor.1 != s.menu.cursor_position.1
                && s.device_cursor.1 + 1 == s.menu.cursor_position.1
        }),
{
    lemma_events_keep_well_formed(initial_session(), events.take(upto));
}

/// The state after the device has sent `bytes`, one at a time.
pub open spec fn after_device_bytes(s: SessionView, bytes: Seq<u8>, columns: u16) -> SessionView
    decreases bytes.len(),
{
    if bytes.len() == 0 {
        s
    } else {
        device_byte_outcome(
            after_device_bytes(s, bytes.drop_last(), columns),
            bytes.last(),
            columns,
        ).state
    }
}

/// Bytes that the buffer keeps back change nothing in a session but the
/// bytes in progress, which are what the buffer alone would hold.
pub proof fn lemma_kept_back_bytes_only_collect(s: SessionView, bytes: Seq<u8>, columns: u16)
    requires
        forall|k: int|
            0 <= k < bytes.len() ==> emitted(
                #[trigger] pending_after_all(s.pending, bytes.take(k)),
                bytes[k],
            ) == EmitView::Nothing,
    ensures
        after_device_bytes(s, bytes, columns) == (SessionView {
            pending: pending_after_all(s.pending, bytes),
            ..s
        }),
    decreases bytes.len(),
{
    if bytes.len() > 0 {
        let shorter = bytes.drop_last();
        assert forall|k: int| 0 <= k < shorter.len() implies emitted(
            #[trigger] pending_after_all(s.pending, shorter.take(k)),
            shorter[k],
        ) == EmitView::Nothing by {
            assert(shorter.take(k) =~= bytes.take(k));
        }
        lemma_kept_back_bytes_only_collect(s, shorter, columns);
        assert(bytes.take(bytes.len() - 1) =~= shorter);
    }
}

/// An escape sequence is drawn whole and in place. While the device sends
/// the escape byte and the body of a sequence, every step draws nothing and
/// the device cursor and the menu stay as they are; the terminator then
/// draws the whole sequence at the position the device cursor had before the
/// escape byte came, and the device cursor is still there afterwards.
pub proof fn lemma_sequence_drawn_in_place(s: SessionView, body: Seq<u8>, columns: u16)
    requires
        s.pending.len() == 0,
        forall|i: int| 0 <= i < body.len() ==> body[i] != ESCAPE && body[i] != TERMINATOR,
    ensures
        after_device_bytes(s, seq![ESCAPE] + body, columns) == (SessionView {
            pending: seq![ESCAPE] + body,
            ..s
        }),
        device_byte_outcome(s, ESCAPE, columns).step == idle_step(),
        forall|k: int|
            0 <= k < body.len() ==> device_byte_outcome(
                #[trigger] after_device_bytes(s, seq![ESCAPE] + body.take(k), columns),
                body[k],
                columns,
            ).step == idle_step(),
        device_byte_outcome(
            after_device_bytes(s, seq![ESCAPE] + body, columns),
            TERMINATOR,
            columns,
        ) == (crate::session::Outcome {
            state: SessionView { pending: Seq::<u8>::empty(), ..s },
            step: StepView {
                commands: framed(
                    seq![
                        CommandView::MoveTo(s.device_cursor.0, s.device_cursor.1),
                        CommandView::PrintBytes((seq![ESCAPE] + body).push(TERMINATOR)),
                    ],
                ),
                track: CursorTrack::Device,
                flow: Flow::Continue,
            },
        }),
{
    let idle = Seq::<u8>::empty();
    let whole = seq![ESCAPE] + body;
    assert(s.pending =~= idle);
    lemma_sequence_is_atomic(body);
    assert forall|k: int| 0 <= k <= body.len() implies #[trigger] after_device_bytes(
        s,
        seq![ESCAPE] + body.take(k),
        columns,
    ) == (SessionView { pending: pending_after_all(idle, seq![ESCAPE] + body.take(k)), ..s }) by {
        let part = seq![ESCAPE] + body.take(k);
        assert forall|j: int| 0 <= j < part.len() implies emitted(
            #[trigger] pending_after_all(s.pending, part.take(j)),
            part[j],
        ) == EmitView::Nothing by {
            if j == 0 {
                assert(part.take(0) =~= idle);
            } else {
                assert(part.take(j) =~= seq![ESCAPE] + body.take(j - 1));
                assert(part[j] == body[j - 1]);
            }
        }
        lemma_kept_back_bytes_only_collect(s, part, columns);
    }
    assert(body.take(body.len() as int) =~= body);
    assert(after_device_bytes(s, whole, columns) == (SessionView {
        pending: pending_after_all(idle, whole),
        ..s
    }));
}

/// Closing the menu undoes what opening it did to the device cursor: a
/// session whose closed menu is opened and closed again has its device
/// cursor where it was, whichever row that is, the topmost one too.
pub proof fn lemma_close_restores_device_row(
    s: SessionView,
    read: Option<Result<InputEvent, InputFailure>>,
    columns: u16,
)
    requires
        !s.menu.is_open,
        read matches Some(Ok(event)) && event_action(event) is Menu,
    ensures
        ({
            let opened = key_outcome(s, read, columns).state;
            let closed = key_outcome(opened, read, columns).state;
            &&& opened.menu.is_open
            &&& opened.row_before_menu == s.device_cursor.1
            &&& opened.device_cursor.1 + 1 == opened.menu.cursor_position.1
            &&& !closed.menu.is_open
            &&& closed.device_cursor == s.device_cursor
            &&& closed.menu.cursor_position.0 == s.menu.cursor_position.0
        }),
{
}

/// While the menu stays open, nothing that happens changes the row the
/// device cursor goes back to when the menu closes.
pub proof fn lemma_open_menu_keeps_remembered_row(s: SessionView, event: SessionEvent)
    requires
        s.menu.is_open,
        after_one(s, event).menu.is_open,
        !(event is Start),
    ensures
        after_one(s, event).row_before_menu == s.row_before_menu,
{
}

} // verus!
