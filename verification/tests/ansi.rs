use serial_console::ansi::AnsiBuffer;
use serial_console::ansi::Emit;

#[test]
fn colour_sequence_comes_out_whole() {
    let mut buffer = AnsiBuffer::new();
    assert_eq!(buffer.feed(0x1B), Emit::Nothing);
    assert_eq!(buffer.feed(0x5B), Emit::Nothing);
    assert_eq!(buffer.feed(0x33), Emit::Nothing);
    assert_eq!(buffer.feed(0x31), Emit::Nothing);
    assert_eq!(buffer.feed(0x6D), Emit::Sequence(vec![0x1B, 0x5B, 0x33, 0x31, 0x6D]));
    assert!(!buffer.is_buffering());
    assert_eq!(buffer.pending(), &Vec::<u8>::new());
}

#[test]
fn idle_byte_comes_out_at_once() {
    let mut buffer = AnsiBuffer::new();
    assert_eq!(buffer.feed(b'A'), Emit::Char(b'A'));
    assert_eq!(buffer.feed(b'm'), Emit::Char(b'm'));
    assert_eq!(buffer.feed(b'\n'), Emit::Char(b'\n'));
    assert!(!buffer.is_buffering());
}

#[test]
fn escape_byte_starts_buffering() {
    let mut buffer = AnsiBuffer::new();
    assert!(!buffer.is_buffering());
    assert_eq!(buffer.feed(0x1B), Emit::Nothing);
    assert!(buffer.is_buffering());
    assert_eq!(buffer.pending(), &vec![0x1Bu8]);
    assert_eq!(buffer.feed(b'['), Emit::Nothing);
    assert_eq!(buffer.pending(), &vec![0x1Bu8, b'[']);
}

#[test]
fn shortest_sequence_is_escape_and_terminator() {
    let mut buffer = AnsiBuffer::new();
    assert_eq!(buffer.feed(0x1B), Emit::Nothing);
    assert_eq!(buffer.feed(b'm'), Emit::Sequence(vec![0x1B, b'm']));
}

#[test]
fn second_escape_is_not_accepted_while_buffering() {
    let mut buffer = AnsiBuffer::new();
    assert!(buffer.accepts(0x1B));
    assert_eq!(buffer.feed(0x1B), Emit::Nothing);
    assert!(!buffer.accepts(0x1B));
    assert!(buffer.accepts(b'['));
    assert_eq!(buffer.feed(b'm'), Emit::Sequence(vec![0x1B, b'm']));
    assert!(buffer.accepts(0x1B));
}

#[test]
fn two_sequences_in_a_row() {
    let mut buffer = AnsiBuffer::new();
    let mut out: Vec<Emit> = Vec::new();
    for byte in [0x1Bu8, b'[', b'0', b'm', b'x', 0x1B, b'[', b'1', b';', b'3', b'2', b'm'] {
        out.push(buffer.feed(byte));
    }
    assert_eq!(out[3], Emit::Sequence(vec![0x1B, b'[', b'0', b'm']));
    assert_eq!(out[4], Emit::Char(b'x'));
    assert_eq!(out[11], Emit::Sequence(vec![0x1B, b'[', b'1', b';', b'3', b'2', b'm']));
    for at in [0usize, 1, 2, 5, 6, 7, 8, 9, 10] {
        assert_eq!(out[at], Emit::Nothing);
    }
}
