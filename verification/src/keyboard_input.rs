//! The mapping of one terminal input event to bytes for the device or a
//! local control action.

use vstd::prelude::*;

verus! {

/// The key of a keyboard event. Keys without a mapping of their own (function
/// keys, Home, End, Insert, media keys, ...) are `Other`.
#[derive(Clone, Copy, Debug, PartialEq, Eq)]
pub enum KeyCode {
    Char(char),
    Enter,
    Esc,
    Up,
    Down,
    Left,
    Right,
    Tab,
    Backspace,
    Delete,
    Null,
    Other,
}

/// A key together with the state of the Control modifier.
#[derive(Clone, Copy, Debug, PartialEq, Eq)]
pub struct KeyPress {
    pub code: KeyCode,
    pub control: bool,
}

/// One event of the terminal's input stream.
#[derive(Clone, Copy, Debug, PartialEq, Eq)]
pub enum InputEvent {
    Key(KeyPress),
    FocusGained,
    FocusLost,
    Mouse,
    Resize(u16, u16),
    Paste,
}

/// The input stream could not deliver or decode an event.
#[derive(Clone, Copy, Debug, PartialEq, Eq)]
pub struct InputFailure;

/// What a keyboard event asks for.
#[derive(Debug, PartialEq, Eq)]
pub enum KeyboardInputAction {
    /// Bytes to transmit to the device.
    Chars(Vec<u8>),
    /// The input stream failed or ended.
    KeypressError,
    /// Toggle the menu; nothing is transmitted.
    Menu,
    NoAction,
}

/// Mathematical value of a `KeyboardInputAction`.
pub enum KeyboardInputActionView {
    Chars(Seq<u8>),
    KeypressError,
    Menu,
    NoAction,
}

impl View for KeyboardInputAction {
    type V = KeyboardInputActionView;

    open spec fn view(&self) -> KeyboardInputActionView {
        match self {
            KeyboardInputAction::Chars(bytes) => KeyboardInputActionView::Chars(bytes@),
            KeyboardInputAction::KeypressError => KeyboardInputActionView::KeypressError,
            KeyboardInputAction::Menu => KeyboardInputActionView::Menu,
            KeyboardInputAction::NoAction => KeyboardInputActionView::NoAction,
        }
    }
}

/// The low eight bits of a character's code point: the single byte that a
/// character key transmits.
pub open spec fn char_byte(c: char) -> u8 {
    (c as u32 % 256) as u8
}

/// The bytes a key without Control transmits, or `None` for a key that
/// transmits nothing.
pub open spec fn plain_key_bytes(code: KeyCode) -> Option<Seq<u8>> {
    match code {
        KeyCode::Char(c) => Some(seq![char_byte(c)]),
        KeyCode::Enter => Some(seq![0x0Du8]),
        KeyCode::Esc => Some(seq![0x1Bu8]),
        KeyCode::Up => Some(seq![0x1Bu8, 0x5Bu8, 0x41u8]),
        KeyCode::Down => Some(seq![0x1Bu8, 0x5Bu8, 0x42u8]),
        KeyCode::Left => Some(seq![0x1Bu8, 0x5Bu8, 0x43u8]),
        KeyCode::Right => Some(seq![0x1Bu8, 0x5Bu8, 0x44u8]),
        KeyCode::Tab => Some(seq![0x09u8]),
        KeyCode::Backspace => Some(seq![0x08u8]),
        KeyCode::Delete => Some(seq![0x7Fu8]),
        KeyCode::Null => Some(seq![0x00u8]),
        KeyCode::Other => None,
    }
}

/// The mapping table for one event.
pub open spec fn event_action(event: InputEvent) -> KeyboardInputActionView {
    match event {
        InputEvent::Key(key) => {
            if key.control {
                if key.code == KeyCode::Char('c') {
                    KeyboardInputActionView::Chars(seq![0x03u8])
                } else if key.code == KeyCode::Char('t') {
                    KeyboardInputActionView::Menu
                } else {
                    KeyboardInputActionView::NoAction
                }
            } else {
                match plain_key_bytes(key.code) {
                    Some(bytes) => KeyboardInputActionView::Chars(bytes),
                    None => KeyboardInputActionView::NoAction,
                }
            }
        },
        _ => KeyboardInputActionView::NoAction,
    }
}

/// The mapping for one item read from the input stream: a failed read and the
/// end of the stream are both an input error.
pub open spec fn read_action(
    read: Option<Result<InputEvent, InputFailure>>,
) -> KeyboardInputActionView {
    match read {
        Some(Ok(event)) => event_action(event),
        _ => KeyboardInputActionView::KeypressError,
    }
}

fn one_byte(b: u8) -> (bytes: Vec<u8>)
    ensures
        bytes@ == seq![b],
{
    let mut bytes: Vec<u8> = Vec::new();
    bytes.push(b);
    assert(bytes@ =~= seq![b]);
    bytes
}

fn arrow_bytes(letter: u8) -> (bytes: Vec<u8>)
    ensures
        bytes@ == seq![0x1Bu8, 0x5Bu8, letter],
{
    let mut bytes: Vec<u8> = Vec::new();
    bytes.push(0x1B);
    bytes.push(0x5B);
    bytes.push(letter);
    assert(bytes@ =~= seq![0x1Bu8, 0x5Bu8, letter]);
    bytes
}

/// Maps one event to its action. Total: an event without a mapping gives
/// `NoAction`.
pub fn handle_event(event: &InputEvent) -> (action: KeyboardInputAction)
    ensures
        action@ == event_action(*event),
{
    match event {
        InputEvent::Key(key) => {
            if key.control {
                if let KeyCode::Char(code) = key.code {
                    if code == 'c' {
                        return KeyboardInputAction::Chars(one_byte(0x03));
                    }
                    if code == 't' {
                        return KeyboardInputAction::Menu;
                    }
                }
                return KeyboardInputAction::NoAction;
            }
            match key.code {
                KeyCode::Char(code) => {
                    let low: u32 = code as u32 % 256;
                    KeyboardInputAction::Chars(one_byte(low as u8))
                },
                KeyCode::Enter => KeyboardInputAction::Chars(one_byte(0x0D)),
                KeyCode::Esc => KeyboardInputAction::Chars(one_byte(0x1B)),
                KeyCode::Up => KeyboardInputAction::Chars(arrow_bytes(0x41)),
                KeyCode::Down => KeyboardInputAction::Chars(arrow_bytes(0x42)),
                KeyCode::Left => KeyboardInputAction::Chars(arrow_bytes(0x43)),
                KeyCode::Right => KeyboardInputAction::Chars(arrow_bytes(0x44)),
                KeyCode::Tab => KeyboardInputAction::Chars(one_byte(0x09)),
                KeyCode::Backspace => KeyboardInputAction::Chars(one_byte(0x08)),
                KeyCode::Delete => KeyboardInputAction::Chars(one_byte(0x7F)),
                KeyCode::Null => KeyboardInputAction::Chars(one_byte(0x00)),
                KeyCode::Other => KeyboardInputAction::NoAction,
            }
        },
        InputEvent::FocusGained
        | InputEvent::FocusLost
        | InputEvent::Mouse
        | InputEvent::Resize(_, _)
        | InputEvent::Paste => KeyboardInputAction::NoAction,
    }
}

/// Maps one item read from the input stream to its action.
pub fn handle_keypress_event(event: &Option<Result<InputEvent, InputFailure>>) -> (action:
    KeyboardInputAction)
    ensures
        action@ == read_action(*event),
{
    match event {
        Some(Ok(event)) => handle_event(event),
        Some(Err(_)) => KeyboardInputAction::KeypressError,
        None => KeyboardInputAction::KeypressError,
    }
}

} // verus!
