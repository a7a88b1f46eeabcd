//! Passthrough buffer for escape sequences that arrive from the device one
//! byte at a time, so that a whole sequence reaches the terminal at once.

use vstd::prelude::*;

verus! {

/// The byte that starts an escape sequence.
pub const ESCAPE: u8 = 0x1B;

/// The byte that ends an escape sequence: `m`, the end of a colour code.
pub const TERMINATOR: u8 = 0x6D;

/// What the terminal is to draw after one byte from the device.
#[derive(Debug, PartialEq, Eq)]
pub enum Emit {
    Nothing,
    /// One byte outside any escape sequence.
    Char(u8),
    /// A complete escape sequence, from its escape byte to its terminator.
    Sequence(Vec<u8>),
}

/// Mathematical value of an `Emit`.
pub enum EmitView {
    Nothing,
    Char(u8),
    Sequence(Seq<u8>),
}

impl View for Emit {
    type V = EmitView;

    open spec fn view(&self) -> EmitView {
        match self {
            Emit::Nothing => EmitView::Nothing,
            Emit::Char(byte) => EmitView::Char(*byte),
            Emit::Sequence(bytes) => EmitView::Sequence(bytes@),
        }
    }
}

/// The bytes of an escape sequence in progress. Empty while idle.
#[derive(Debug)]
pub struct AnsiBuffer {
    pending: Vec<u8>,
}

impl View for AnsiBuffer {
    type V = Seq<u8>;

    closed spec fn view(&self) -> Seq<u8> {
        self.pending@
    }
}

/// The bytes collected so far are either none, or an escape byte followed by
/// bytes that neither start nor end a sequence.
pub open spec fn well_formed_pending(pending: Seq<u8>) -> bool {
    pending.len() > 0 ==> {
        &&& pending[0] == ESCAPE
        &&& forall|i: int| 1 <= i < pending.len() ==> pending[i] != ESCAPE && pending[i] != TERMINATOR
    }
}

/// Whether a byte may be fed: an escape byte inside a sequence in progress
/// is a protocol violation and is never fed.
pub open spec fn accepts_byte(pending: Seq<u8>, byte: u8) -> bool {
    !(pending.len() > 0 && byte == ESCAPE)
}

/// The bytes in progress after `byte` is fed.
pub open spec fn pending_after(pending: Seq<u8>, byte: u8) -> Seq<u8> {
    if pending.len() == 0 {
        if byte == ESCAPE {
            seq![ESCAPE]
        } else {
            Seq::<u8>::empty()
        }
    } else if byte == TERMINATOR {
        Seq::<u8>::empty()
    } else {
        pending.push(byte)
    }
}

/// What is emitted when `byte` is fed.
pub open spec fn emitted(pending: Seq<u8>, byte: u8) -> EmitView {
    if pending.len() == 0 {
        if byte == ESCAPE {
            EmitView::Nothing
        } else {
            EmitView::Char(byte)
        }
    } else if byte == TERMINATOR {
        EmitView::Sequence(pending.push(byte))
    } else {
        EmitView::Nothing
    }
}

/// The bytes in progress after each byte of `bytes` is fed in turn.
pub open spec fn pending_after_all(pending: Seq<u8>, bytes: Seq<u8>) -> Seq<u8>
    decreases bytes.len(),
{
    if bytes.len() == 0 {
        pending
    } else {
        pending_after(pending_after_all(pending, bytes.drop_last()), bytes.last())
    }
}

impl AnsiBuffer {
    /// The invariant of the buffer.
    pub open spec fn wf(&self) -> bool {
        well_formed_pending(self@)
    }

    /// An idle buffer.
    pub fn new() -> (buffer: AnsiBuffer)
        ensures
            buffer.wf(),
            buffer@ == Seq::<u8>::empty(),
    {
        AnsiBuffer { pending: Vec::new() }
    }

    /// The bytes collected so far.
    pub fn pending(&self) -> (bytes: &Vec<u8>)
        ensures
            bytes@ == self@,
    {
        &self.pending
    }

    /// Whether an escape sequence is in progress.
    pub fn is_buffering(&self) -> (buffering: bool)
        ensures
            buffering == (self@.len() > 0),
    {
        self.pending.len() > 0
    }

    /// Whether `byte` may be fed now.
    pub fn accepts(&self, byte: u8) -> (accepted: bool)
        ensures
            accepted == accepts_byte(self@, byte),
    {
        !(self.pending.len() > 0 && byte == ESCAPE)
    }

    /// Feeds one byte from the device.
    ///
    /// Idle, an escape byte starts a sequence and any other byte is emitted
    /// as it is. Inside a sequence every byte is kept back until the
    /// terminator arrives; then the whole sequence is emitted and the buffer
    /// is idle again.
    pub fn feed(&mut self, byte: u8) -> (emit: Emit)
        requires
            old(self).wf(),
            accepts_byte(old(self)@, byte),
        ensures
            final(self).wf(),
            final(self)@ == pending_after(old(self)@, byte),
            emit@ == emitted(old(self)@, byte),
    {
        if self.pending.len() > 0 {
            self.pending.push(byte);
            if byte == TERMINATOR {
                let mut sequence: Vec<u8> = Vec::new();
                sequence.append(&mut self.pending);
                assert(sequence@ =~= old(self)@.push(byte));
                Emit::Sequence(sequence)
            } else {
                Emit::Nothing
            }
        } else if byte == ESCAPE {
            self.pending.push(ESCAPE);
            assert(self.pending@ =~= seq![ESCAPE]);
            Emit::Nothing
        } else {
            assert(self.pending@ =~= Seq::<u8>::empty());
            Emit::Char(byte)
        }
    }
}

/// While a sequence is in progress nothing is emitted before its terminator,
/// and the terminator emits everything since the escape byte, in order.
pub proof fn lemma_sequence_is_atomic(body: Seq<u8>)
    requires
        forall|i: int| 0 <= i < body.len() ==> body[i] != ESCAPE && body[i] != TERMINATOR,
    ensures
        pending_after_all(Seq::<u8>::empty(), seq![ESCAPE] + body) == seq![ESCAPE] + body,
        forall|k: int|
            0 <= k < body.len() ==> emitted(
                #[trigger] pending_after_all(Seq::<u8>::empty(), seq![ESCAPE] + body.take(k)),
                body[k],
            ) == EmitView::Nothing,
        emitted(pending_after_all(Seq::<u8>::empty(), seq![ESCAPE] + body), TERMINATOR)
            == EmitView::Sequence((seq![ESCAPE] + body).push(TERMINATOR)),
        pending_after(pending_after_all(Seq::<u8>::empty(), seq![ESCAPE] + body), TERMINATOR)
            == Seq::<u8>::empty(),
    decreases body.len(),
{
    let whole = seq![ESCAPE] + body;
    if body.len() == 0 {
        assert(whole =~= seq![ESCAPE]);
        assert(whole.drop_last() =~= Seq::<u8>::empty());
        assert(pending_after_all(Seq::<u8>::empty(), whole.drop_last()) == Seq::<u8>::empty());
        assert(pending_after_all(Seq::<u8>::empty(), whole) =~= whole);
    } else {
        let shorter = body.drop_last();
        lemma_sequence_is_atomic(shorter);
        assert(whole.drop_last() =~= seq![ESCAPE] + shorter);
        assert(whole.last() == body.last());
        assert(pending_after_all(Seq::<u8>::empty(), whole) =~= whole);
        assert forall|k: int| 0 <= k < body.len() implies emitted(
            #[trigger] pending_after_all(Seq::<u8>::empty(), seq![ESCAPE] + body.take(k)),
            body[k],
        ) == EmitView::Nothing by {
            if k < shorter.len() {
                assert(body.take(k) =~= shorter.take(k));
                assert(body[k] == shorter[k]);
            } else {
                assert(body.take(k) =~= shorter);
            }
        }
    }
}

} // verus!
