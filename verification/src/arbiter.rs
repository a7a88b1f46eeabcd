//! Which of the two inputs of the event loop is served when both are ready.

use vstd::prelude::*;

verus! {

/// An input of the event loop.
#[derive(Clone, Copy, Debug, PartialEq, Eq)]
pub enum Source {
    Keyboard,
    Device,
}

/// The other input.
pub open spec fn other_source(source: Source) -> Source {
    match source {
        Source::Keyboard => Source::Device,
        Source::Device => Source::Keyboard,
    }
}

/// The input to serve when the keyboard, the device, both or neither are
/// ready and `last` was served before: a lone ready input is served, and of
/// two ready inputs the one that was not served last.
pub open spec fn chosen(last: Source, keyboard_ready: bool, device_ready: bool) -> Option<Source> {
    if keyboard_ready && device_ready {
        Some(other_source(last))
    } else if keyboard_ready {
        Some(Source::Keyboard)
    } else if device_ready {
        Some(Source::Device)
    } else {
        None
    }
}

/// Remembers which input was served last, so that neither starves the
/// other.
#[derive(Clone, Copy, Debug, PartialEq, Eq)]
pub struct Arbiter {
    pub last: Source,
}

impl Arbiter {
    /// An arbiter that gives the keyboard the first turn.
    pub fn new() -> (arbiter: Arbiter)
        ensures
            arbiter.last == Source::Device,
    {
        Arbiter { last: Source::Device }
    }

    /// The input that is served if both are ready.
    pub fn preferred(&self) -> (source: Source)
        ensures
            source == other_source(self.last),
    {
        match self.last {
            Source::Keyboard => Source::Device,
            Source::Device => Source::Keyboard,
        }
    }

    /// Picks the input to serve and remembers it. Nothing is picked, and
    /// nothing changes, if neither input is ready.
    pub fn pick(&mut self, keyboard_ready: bool, device_ready: bool) -> (source: Option<Source>)
        ensures
            source == chosen(old(self).last, keyboard_ready, device_ready),
            final(self).last == match source {
                Some(served) => served,
                None => old(self).last,
            },
    {
        let pick = if keyboard_ready && device_ready {
            Some(self.preferred())
        } else if keyboard_ready {
            Some(Source::Keyboard)
        } else if device_ready {
            Some(Source::Device)
        } else {
            None
        };
        match pick {
            Some(served) => {
                self.last = served;
            },
            None => {},
        }
        pick
    }
}

/// While both inputs are ready they take turns: two picks in a row serve
/// both of them. And whatever is ready, an input that is ready alone is
/// served at once.
pub proof fn lemma_inputs_take_turns(last: Source)
    ensures
        chosen(last, true, true) is Some,
        chosen(chosen(last, true, true).unwrap(), true, true) == Some(last),
        chosen(last, true, true) != chosen(chosen(last, true, true).unwrap(), true, true),
        chosen(last, true, false) == Some(Source::Keyboard),
        chosen(last, false, true) == Some(Source::Device),
        chosen(last, false, false) is None,
{
}

} // verus!
