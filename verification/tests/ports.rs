use serial_console::list_ports::list_ports;
use serial_console::list_ports::SerialPortInfo;
use serial_console::list_ports::SerialPortType;
use serial_console::list_ports::UsbPortInfo;
use serial_console::log_to_ui::log_line;
use serial_console::log_to_ui::print_log_to_stdout;
use serial_console::render::make_blank_row;
use serial_console::render::Command;
use serial_console::text::decimal;
use serial_console::text::hex4;

fn port(name: &str, port_type: SerialPortType) -> SerialPortInfo {
    SerialPortInfo { port_name: String::from(name), port_type }
}

#[test]
fn no_ports_found() {
    let listing = list_ports(&Ok(Vec::new()));
    assert_eq!(listing.output, vec![String::from("No ports found.")]);
    assert_eq!(listing.errors, Vec::<String>::new());
}

#[test]
fn one_port_found() {
    let listing = list_ports(&Ok(vec![port("/dev/ttyS0", SerialPortType::Unknown)]));
    assert_eq!(listing.output, vec!["Found 1 port:", "  /dev/ttyS0", "    Type: Unknown"]);
    assert_eq!(listing.errors, Vec::<String>::new());
}

#[test]
fn several_ports_found() {
    let usb = UsbPortInfo {
        vid: 0x0403,
        pid: 0x6001,
        serial_number: Some(String::from("A50285BI")),
        manufacturer: None,
        product: Some(String::from("FT232R USB UART")),
    };
    let listing = list_ports(&Ok(vec![
        port("COM1", SerialPortType::PciPort),
        port("COM7", SerialPortType::UsbPort(usb)),
        port("COM9", SerialPortType::BluetoothPort),
    ]));
    assert_eq!(
        listing.output,
        vec![
            "Found 3 ports:",
            "  COM1",
            "    Type: PCI",
            "  COM7",
            "    Type: USB",
            "    VID: 0x0403",
            "    PID: 0x6001",
            "    Serial Number: A50285BI",
            "    Manufacturer: ",
            "    Product: FT232R USB UART",
            "  COM9",
            "    Type: Bluetooth",
        ]
    );
    assert_eq!(listing.errors, Vec::<String>::new());
}

#[test]
fn count_of_many_ports_is_written_in_decimal() {
    let mut ports = Vec::new();
    for _ in 0..12 {
        ports.push(port("p", SerialPortType::Unknown));
    }
    let listing = list_ports(&Ok(ports));
    assert_eq!(listing.output[0], "Found 12 ports:");
    assert_eq!(listing.output.len(), 25);
}

#[test]
fn failure_to_list_goes_to_the_error_output() {
    let listing = list_ports(&Err(String::from("Error { kind: Unknown }")));
    assert_eq!(listing.output, Vec::<String>::new());
    assert_eq!(listing.errors, vec!["Error { kind: Unknown }", "Error listing serial ports"]);
}

#[test]
fn decimal_writes_numbers_as_format_does() {
    for n in [0usize, 1, 9, 10, 11, 99, 100, 12345, 1_000_000, usize::MAX] {
        assert_eq!(decimal(n), format!("{}", n));
    }
}

#[test]
fn hex4_writes_four_lower_case_digits() {
    for n in [0u16, 1, 0xA, 0xF, 0x10, 0xFF, 0x100, 0x0403, 0xABCD, 0xFFFF] {
        assert_eq!(hex4(n), format!("{:04x}", n));
    }
}

#[test]
fn blank_row_is_as_wide_as_asked() {
    assert_eq!(make_blank_row(0), "");
    assert_eq!(make_blank_row(1), " ");
    assert_eq!(make_blank_row(80), " ".repeat(80));
}

#[test]
fn status_line_is_stamped_and_framed() {
    assert_eq!(
        log_line("12:34:56.789", String::from("Connected to COM3")),
        vec![
            Command::HideCursor,
            Command::MenuColors,
            Command::Print(String::from("\r\n[12:34:56.789] ")),
            Command::Print(String::from("Connected to COM3")),
            Command::ResetColors,
            Command::Print(String::from("\r\n")),
            Command::ShowCursor,
        ]
    );
}

#[test]
fn blank_status_line_is_only_a_time() {
    let commands = log_line("00:00:00.000", String::new());
    assert_eq!(commands[2], Command::Print(String::from("\r\n[00:00:00.000] ")));
    assert_eq!(commands[3], Command::Print(String::new()));
}

#[test]
fn status_line_logged_now_shows_the_time_of_day() {
    let commands = print_log_to_stdout(String::from("Waiting for COM3"));
    assert_eq!(commands.len(), 7);
    let stamp = match &commands[2] {
        Command::Print(text) => text.clone(),
        other => panic!("no time in {:?}", other),
    };
    let shape: Vec<char> = stamp.chars().map(|c| if c.is_ascii_digit() { '9' } else { c }).collect();
    let shape: String = shape.into_iter().collect();
    assert_eq!(shape, "\r\n[99:99:99.999] ");
    let time = &stamp[3..15];
    assert_eq!(commands, log_line(time, String::from("Waiting for COM3")));
    assert!(time[0..2].parse::<u32>().unwrap() < 24);
    assert!(time[3..5].parse::<u32>().unwrap() < 60);
    assert!(time[6..8].parse::<u32>().unwrap() < 61);
}
