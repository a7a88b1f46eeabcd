//! The listing of the serial ports found on the machine, as lines of text.

use vstd::prelude::*;
use vstd::string::StringExecFns;
use crate::text::decimal;
use crate::text::decimal_text;
use crate::text::hex4;
use crate::text::hex4_text;

verus! {

/// What a USB device tells of itself.
#[derive(Debug, Clone, PartialEq, Eq)]
pub struct UsbPortInfo {
    pub vid: u16,
    pub pid: u16,
    pub serial_number: Option<String>,
    pub manufacturer: Option<String>,
    pub product: Option<String>,
}

/// How a serial port is attached.
#[derive(Debug, Clone, PartialEq, Eq)]
pub enum SerialPortType {
    UsbPort(UsbPortInfo),
    PciPort,
    BluetoothPort,
    Unknown,
}

/// One serial port.
#[derive(Debug, Clone, PartialEq, Eq)]
pub struct SerialPortInfo {
    pub port_name: String,
    pub port_type: SerialPortType,
}

/// The lines of a listing: those for the standard output and those for the
/// error output.
#[derive(Debug, PartialEq, Eq)]
pub struct Listing {
    pub output: Vec<String>,
    pub errors: Vec<String>,
}

/// The texts of a list of lines, in order.
pub open spec fn lines_view(lines: Seq<String>) -> Seq<Seq<char>> {
    lines.map_values(|line: String| line@)
}

/// A text that may be missing; a missing text is empty.
pub open spec fn text_or_empty(text: Option<String>) -> Seq<char> {
    match text {
        Some(given) => given@,
        None => Seq::<char>::empty(),
    }
}

/// The first line of a listing.
pub open spec fn heading(count: nat) -> Seq<char> {
    if count == 0 {
        "No ports found."@
    } else if count == 1 {
        "Found 1 port:"@
    } else {
        "Found "@ + decimal_text(count) + " ports:"@
    }
}

/// The lines that tell how a port is attached.
pub open spec fn type_lines(port_type: SerialPortType) -> Seq<Seq<char>> {
    match port_type {
        SerialPortType::UsbPort(info) => seq![
            "    Type: USB"@,
            "    VID: 0x"@ + hex4_text(info.vid),
            "    PID: 0x"@ + hex4_text(info.pid),
            "    Serial Number: "@ + text_or_empty(info.serial_number),
            "    Manufacturer: "@ + text_or_empty(info.manufacturer),
            "    Product: "@ + text_or_empty(info.product),
        ],
        SerialPortType::BluetoothPort => seq!["    Type: Bluetooth"@],
        SerialPortType::PciPort => seq!["    Type: PCI"@],
        SerialPortType::Unknown => seq!["    Type: Unknown"@],
    }
}

/// The lines of one port: its name, then how it is attached.
pub open spec fn port_lines(port: SerialPortInfo) -> Seq<Seq<char>> {
    seq!["  "@ + port.port_name@] + type_lines(port.port_type)
}

/// The lines of all ports, in order.
pub open spec fn all_port_lines(ports: Seq<SerialPortInfo>) -> Seq<Seq<char>>
    decreases ports.len(),
{
    if ports.len() == 0 {
        Seq::<Seq<char>>::empty()
    } else {
        all_port_lines(ports.drop_last()) + port_lines(ports.last())
    }
}

/// The lines of a listing of `ports`.
pub open spec fn listing_lines(ports: Seq<SerialPortInfo>) -> Seq<Seq<char>> {
    seq![heading(ports.len())] + all_port_lines(ports)
}

/// The error lines when the ports could not be found out; `detail` is the
/// failure as it is to be shown.
pub open spec fn failure_lines(detail: Seq<char>) -> Seq<Seq<char>> {
    seq![detail, "Error listing serial ports"@]
}

fn add_line(lines: &mut Vec<String>, line: String)
    ensures
        lines_view(final(lines)@) == lines_view(old(lines)@).push(line@),
{
    lines.push(line);
    assert(lines_view(lines@) =~= lines_view(old(lines)@).push(line@));
}

fn no_lines() -> (lines: Vec<String>)
    ensures
        lines_view(lines@) == Seq::<Seq<char>>::empty(),
{
    let lines: Vec<String> = Vec::new();
    assert(lines_view(lines@) =~= Seq::<Seq<char>>::empty());
    lines
}

fn labelled(label: &str, text: &Option<String>) -> (line: String)
    ensures
        line@ == label@ + text_or_empty(*text),
{
    match text {
        Some(given) => String::from_str(label).concat(given.as_str()),
        None => {
            let line = String::from_str(label);
            assert(line@ =~= label@ + Seq::<char>::empty());
            line
        },
    }
}

fn add_port_lines(lines: &mut Vec<String>, port: &SerialPortInfo)
    ensures
        lines_view(final(lines)@) == lines_view(old(lines)@) + port_lines(*port),
{
    add_line(lines, String::from_str("  ").concat(port.port_name.as_str()));
    match &port.port_type {
        SerialPortType::UsbPort(info) => {
            add_line(lines, String::from_str("    Type: USB"));
            add_line(lines, String::from_str("    VID: 0x").concat(hex4(info.vid).as_str()));
            add_line(lines, String::from_str("    PID: 0x").concat(hex4(info.pid).as_str()));
            add_line(lines, labelled("    Serial Number: ", &info.serial_number));
            add_line(lines, labelled("    Manufacturer: ", &info.manufacturer));
            add_line(lines, labelled("    Product: ", &info.product));
        },
        SerialPortType::BluetoothPort => {
            add_line(lines, String::from_str("    Type: Bluetooth"));
        },
        SerialPortType::PciPort => {
            add_line(lines, String::from_str("    Type: PCI"));
        },
        SerialPortType::Unknown => {
            add_line(lines, String::from_str("    Type: Unknown"));
        },
    }
    assert(lines_view(lines@) =~= lines_view(old(lines)@) + port_lines(*port));
}

/// Writes the listing of the ports that were found, or the error lines if
/// they could not be found out.
pub fn list_ports(found: &Result<Vec<SerialPortInfo>, String>) -> (listing: Listing)
    ensures
        match *found {
            Ok(ports) => lines_view(listing.output@) == listing_lines(ports@) && lines_view(
                listing.errors@,
            ) == Seq::<Seq<char>>::empty(),
            Err(detail) => lines_view(listing.output@) == Seq::<Seq<char>>::empty() && lines_view(
                listing.errors@,
            ) == failure_lines(detail@),
        },
{
    let mut output = no_lines();
    let mut errors = no_lines();
    match found {
        Ok(ports) => {
            let count: usize = ports.len();
            let first = if count == 0 {
                String::from_str("No ports found.")
            } else if count == 1 {
                String::from_str("Found 1 port:")
            } else {
                let mut line = String::from_str("Found ");
                line.append(decimal(count).as_str());
                line.append(" ports:");
                line
            };
            add_line(&mut output, first);
            assert(lines_view(output@) =~= seq![heading(ports@.len())]);
            let mut at: usize = 0;
            while at < count
                invariant
                    at <= count,
                    count == ports@.len(),
                    lines_view(output@) == seq![heading(ports@.len())] + all_port_lines(
                        ports@.take(at as int),
                    ),
                decreases count - at,
            {
                add_port_lines(&mut output, &ports[at]);
                proof {
                    let longer = ports@.take(at + 1);
                    assert(longer.drop_last() =~= ports@.take(at as int));
                    assert(longer.last() == ports@[at as int]);
                    assert(lines_view(output@) =~= seq![heading(ports@.len())] + all_port_lines(
                        longer,
                    ));
                }
                at = at + 1;
            }
            assert(ports@.take(at as int) =~= ports@);
        },
        Err(detail) => {
            add_line(&mut errors, detail.clone());
            add_line(&mut errors, String::from_str("Error listing serial ports"));
            assert(lines_view(errors@) =~= failure_lines(detail@));
        },
    }
    Listing { output, errors }
}

} // verus!
