//! Checks of the settings given on the command line: baud rate, data bits,
//! flow control, parity and stop bits.

use vstd::prelude::*;
use vstd::string::StringExecFns;
use vstd::string::StrSliceExecFns;

verus! {

/// A setting together with the text the operator gave for it, which is how
/// the setting is shown.
#[derive(Debug, Clone)]
pub struct CLIDisplay<T> {
    pub name: String,
    pub value: T,
}

impl<T> CLIDisplay<T> {
    /// The text this setting is shown as.
    pub fn to_text(&self) -> (text: String)
        ensures
            text@ == self.name@,
    {
        self.name.clone()
    }
}

/// Number of data bits per character.
#[derive(Clone, Copy, Debug, PartialEq, Eq)]
pub enum DataBits {
    Five,
    Six,
    Seven,
    Eight,
}

/// Flow control of the link.
#[derive(Clone, Copy, Debug, PartialEq, Eq)]
pub enum FlowControl {
    Off,
    Software,
    Hardware,
}

/// Parity checking of the link.
#[derive(Clone, Copy, Debug, PartialEq, Eq)]
pub enum Parity {
    Off,
    Odd,
    Even,
}

/// Number of stop bits per character.
#[derive(Clone, Copy, Debug, PartialEq, Eq)]
pub enum StopBits {
    One,
    Two,
}

/// The lower-case form of a text.
pub uninterp spec fn lowercase_text(text: Seq<char>) -> Seq<char>;

/// `str::to_lowercase`: the lower-case equivalent of the text as a new
/// string. Nothing is claimed of the result but that it is that form.
#[verifier::external_body]
fn to_lowercase(val: &str) -> (lowered: String)
    ensures
        lowered@ == lowercase_text(val@),
{
    val.to_lowercase()
}

/// Whether a character is a decimal digit.
pub open spec fn is_digit(c: char) -> bool {
    '0' <= c <= '9'
}

/// Whether a text holds decimal digits only.
pub open spec fn all_digits(text: Seq<char>) -> bool {
    forall|i: int| 0 <= i < text.len() ==> is_digit(#[trigger] text[i])
}

/// The number a run of decimal digits writes.
pub open spec fn digits_value(digits: Seq<char>) -> nat
    decreases digits.len(),
{
    if digits.len() == 0 {
        0
    } else {
        (digits_value(digits.drop_last()) * 10 + (digits.last() as nat - '0' as nat)) as nat
    }
}

/// A text without the plus sign it may start with.
pub open spec fn after_sign(text: Seq<char>) -> Seq<char> {
    if text.len() > 0 && text[0] == '+' {
        text.skip(1)
    } else {
        text
    }
}

/// The 32-bit number a text writes: an optional plus sign, then one or more
/// decimal digits whose value fits. Any other text writes none.
pub open spec fn parsed_u32(text: Seq<char>) -> Option<u32> {
    let digits = after_sign(text);
    if digits.len() > 0 && all_digits(digits) && digits_value(digits) <= u32::MAX {
        Some(digits_value(digits) as u32)
    } else {
        None
    }
}

/// The complaint about a text that writes no baud rate.
pub open spec fn invalid_baud_message(val: Seq<char>) -> Seq<char> {
    "Invalid baud rate '"@ + val + "' specified, expected valid u32"@
}

/// A run of digits writes at least what any of its beginnings writes.
pub proof fn lemma_digits_value_grows(digits: Seq<char>, upto: int)
    requires
        0 <= upto <= digits.len(),
        all_digits(digits),
    ensures
        digits_value(digits.take(upto)) <= digits_value(digits),
    decreases digits.len() - upto,
{
    if upto == digits.len() {
        assert(digits.take(upto) =~= digits);
    } else {
        lemma_digits_value_grows(digits, upto + 1);
        let longer = digits.take(upto + 1);
        assert(longer.drop_last() =~= digits.take(upto));
        assert(is_digit(digits[upto]));
        assert(longer.last() == digits[upto]);
    }
}

fn message(before: &str, val: &str, after: &str) -> (text: String)
    ensures
        text@ == before@ + val@ + after@,
{
    let mut text = String::from_str(before);
    text.append(val);
    text.append(after);
    text
}

/// Reads a 32-bit number.
pub fn parse_u32(val: &str) -> (number: Option<u32>)
    ensures
        number == parsed_u32(val@),
{
    let length: usize = val.unicode_len();
    let mut at: usize = 0;
    if length > 0 && val.get_char(0) == '+' {
        at = 1;
    }
    let start: usize = at;
    let ghost digits = after_sign(val@);
    assert(digits =~= val@.skip(start as int));
    if at == length {
        return None;
    }
    let mut value: u64 = 0;
    while at < length
        invariant
            start <= at <= length,
            length == val@.len(),
            digits == val@.skip(start as int),
            digits == after_sign(val@),
            all_digits(digits.take(at - start)),
            value == digits_value(digits.take(at - start)),
            value <= u32::MAX,
        decreases length - at,
    {
        let c: char = val.get_char(at);
        let ghost seen = digits.take(at - start);
        let ghost longer = digits.take(at - start + 1);
        assert(digits[at - start] == c);
        assert(longer.drop_last() =~= seen);
        assert(longer.last() == c);
        if !(c >= '0' && c <= '9') {
            assert(!is_digit(digits[at - start]));
            return None;
        }
        let digit: u64 = (c as u32 - 48) as u64;
        value = value * 10 + digit;
        assert(all_digits(longer)) by {
            assert forall|i: int| 0 <= i < longer.len() implies is_digit(#[trigger] longer[i]) by {
                if i < seen.len() {
                    assert(longer[i] == seen[i]);
                }
            }
        }
        if value > 0xFFFF_FFFF {
            proof {
                assert(value == digits_value(longer));
                if all_digits(digits) {
                    lemma_digits_value_grows(digits, at - start + 1);
                }
            }
            return None;
        }
        at = at + 1;
    }
    assert(digits.take(at - start) =~= digits);
    Some(value as u32)
}

/// Checks a baud rate: any 32-bit number.
pub fn valid_baud(val: &str) -> (baud: Result<u32, String>)
    ensures
        match baud {
            Ok(rate) => parsed_u32(val@) == Some(rate),
            Err(complaint) => parsed_u32(val@) is None && complaint@ == invalid_baud_message(val@),
        },
{
    match parse_u32(val) {
        Some(rate) => Ok(rate),
        None => Err(message("Invalid baud rate '", val, "' specified, expected valid u32")),
    }
}

fn same_text(text: &str, literal: &str) -> (same: bool)
    ensures
        same == (text@ == literal@),
{
    String::from_str(text) == String::from_str(literal)
}

fn named<T>(val: &str, value: T) -> (shown: CLIDisplay<T>)
    ensures
        shown.name@ == val@,
        shown.value == value,
{
    CLIDisplay { name: String::from_str(val), value }
}

/// The data bits a text names.
pub open spec fn data_bits_named(val: Seq<char>) -> Option<DataBits> {
    if val == "5"@ {
        Some(DataBits::Five)
    } else if val == "6"@ {
        Some(DataBits::Six)
    } else if val == "7"@ {
        Some(DataBits::Seven)
    } else if val == "8"@ {
        Some(DataBits::Eight)
    } else {
        None
    }
}

/// The flow control a text in lower case names.
pub open spec fn flow_control_named(lowered: Seq<char>) -> Option<FlowControl> {
    if lowered == "none"@ {
        Some(FlowControl::Off)
    } else if lowered == "hardware"@ || lowered == "hw"@ {
        Some(FlowControl::Hardware)
    } else if lowered == "software"@ || lowered == "sw"@ {
        Some(FlowControl::Software)
    } else {
        None
    }
}

/// The parity a text in lower case names.
pub open spec fn parity_named(lowered: Seq<char>) -> Option<Parity> {
    if lowered == "none"@ {
        Some(Parity::Off)
    } else if lowered == "odd"@ {
        Some(Parity::Odd)
    } else if lowered == "even"@ {
        Some(Parity::Even)
    } else {
        None
    }
}

/// The stop bits a text in lower case names.
pub open spec fn stop_bits_named(lowered: Seq<char>) -> Option<StopBits> {
    if lowered == "1"@ || lowered == "one"@ {
        Some(StopBits::One)
    } else if lowered == "2"@ || lowered == "two"@ {
        Some(StopBits::Two)
    } else {
        None
    }
}

/// The complaint about a text that names no data bits.
pub open spec fn invalid_data_bits_message(val: Seq<char>) -> Seq<char> {
    "Invalid data bits '"@ + val + "' specified, expected 5 <= bits <= 8"@
}

/// The complaint about a text that names no flow control.
pub open spec fn invalid_flow_control_message(val: Seq<char>) -> Seq<char> {
    "Invalid flow control '"@ + val + "' specified, expected 'none', 'hw', or 'sw'"@
}

/// The complaint about a text that names no parity.
pub open spec fn invalid_parity_message(val: Seq<char>) -> Seq<char> {
    "Invalid parity '"@ + val + "' specified, expected 'none', 'odd', or 'even'"@
}

/// The complaint about a text that names no stop bits.
pub open spec fn invalid_stop_bits_message(val: Seq<char>) -> Seq<char> {
    "Invalid baud rate '"@ + val + "' specified, expected 1 or 2"@
}

/// What a check of a setting returns: the setting that `found` gives, shown
/// as `val`, or else the `complaint`.
pub open spec fn checked<T>(
    result: Result<CLIDisplay<T>, String>,
    val: Seq<char>,
    found: Option<T>,
    complaint: Seq<char>,
) -> bool {
    match result {
        Ok(shown) => found == Some(shown.value) && shown.name@ == val,
        Err(text) => found is None && text@ == complaint,
    }
}

/// Checks the number of data bits: `5`, `6`, `7` or `8`.
pub fn valid_data_bits(val: &str) -> (bits: Result<CLIDisplay<DataBits>, String>)
    ensures
        checked(bits, val@, data_bits_named(val@), invalid_data_bits_message(val@)),
{
    if same_text(val, "5") {
        Ok(named(val, DataBits::Five))
    } else if same_text(val, "6") {
        Ok(named(val, DataBits::Six))
    } else if same_text(val, "7") {
        Ok(named(val, DataBits::Seven))
    } else if same_text(val, "8") {
        Ok(named(val, DataBits::Eight))
    } else {
        Err(message("Invalid data bits '", val, "' specified, expected 5 <= bits <= 8"))
    }
}

/// Checks a flow control given as `val`, whose lower-case form is `lowered`:
/// `none`, `hardware` or `hw`, `software` or `sw`.
pub fn flow_control_from(val: &str, lowered: &str) -> (flow: Result<CLIDisplay<FlowControl>, String>)
    ensures
        checked(flow, val@, flow_control_named(lowered@), invalid_flow_control_message(val@)),
{
    if same_text(lowered, "none") {
        Ok(named(val, FlowControl::Off))
    } else if same_text(lowered, "hardware") || same_text(lowered, "hw") {
        Ok(named(val, FlowControl::Hardware))
    } else if same_text(lowered, "software") || same_text(lowered, "sw") {
        Ok(named(val, FlowControl::Software))
    } else {
        Err(message("Invalid flow control '", val, "' specified, expected 'none', 'hw', or 'sw'"))
    }
}

/// Checks a flow control, whatever the case of its letters.
pub fn valid_flow_control(val: &str) -> (flow: Result<CLIDisplay<FlowControl>, String>)
    ensures
        checked(
            flow,
            val@,
            flow_control_named(lowercase_text(val@)),
            invalid_flow_control_message(val@),
        ),
{
    let lowered = to_lowercase(val);
    flow_control_from(val, lowered.as_str())
}

/// Checks a parity given as `val`, whose lower-case form is `lowered`:
/// `none`, `odd` or `even`.
pub fn parity_from(val: &str, lowered: &str) -> (parity: Result<CLIDisplay<Parity>, String>)
    ensures
        checked(parity, val@, parity_named(lowered@), invalid_parity_message(val@)),
{
    if same_text(lowered, "none") {
        Ok(named(val, Parity::Off))
    } else if same_text(lowered, "odd") {
        Ok(named(val, Parity::Odd))
    } else if same_text(lowered, "even") {
        Ok(named(val, Parity::Even))
    } else {
        Err(message("Invalid parity '", val, "' specified, expected 'none', 'odd', or 'even'"))
    }
}

/// Checks a parity, whatever the case of its letters.
pub fn valid_parity(val: &str) -> (parity: Result<CLIDisplay<Parity>, String>)
    ensures
        checked(parity, val@, parity_named(lowercase_text(val@)), invalid_parity_message(val@)),
{
    let lowered = to_lowercase(val);
    parity_from(val, lowered.as_str())
}

/// Checks a number of stop bits given as `val`, whose lower-case form is
/// `lowered`: `1` or `one`, `2` or `two`.
pub fn stop_bits_from(val: &str, lowered: &str) -> (bits: Result<CLIDisplay<StopBits>, String>)
    ensures
        checked(bits, val@, stop_bits_named(lowered@), invalid_stop_bits_message(val@)),
{
    if same_text(lowered, "1") || same_text(lowered, "one") {
        Ok(named(val, StopBits::One))
    } else if same_text(lowered, "2") || same_text(lowered, "two") {
        Ok(named(val, StopBits::Two))
    } else {
        Err(message("Invalid baud rate '", val, "' specified, expected 1 or 2"))
    }
}

/// Checks a number of stop bits, whatever the case of its letters.
pub fn valid_stop_bits(val: &str) -> (bits: Result<CLIDisplay<StopBits>, String>)
    ensures
        checked(bits, val@, stop_bits_named(lowercase_text(val@)), invalid_stop_bits_message(val@)),
{
    let lowered = to_lowercase(val);
    stop_bits_from(val, lowered.as_str())
}

} // verus!
