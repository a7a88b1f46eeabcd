use serial_console::arg_helpers::flow_control_from;
use serial_console::arg_helpers::parity_from;
use serial_console::arg_helpers::parse_u32;
use serial_console::arg_helpers::stop_bits_from;
use serial_console::arg_helpers::valid_baud;
use serial_console::arg_helpers::valid_data_bits;
use serial_console::arg_helpers::valid_flow_control;
use serial_console::arg_helpers::valid_parity;
use serial_console::arg_helpers::valid_stop_bits;
use serial_console::arg_helpers::CLIDisplay;
use serial_console::arg_helpers::DataBits;
use serial_console::arg_helpers::FlowControl;
use serial_console::arg_helpers::Parity;
use serial_console::arg_helpers::StopBits;

#[test]
fn baud_rate_is_any_u32() {
    assert_eq!(valid_baud("115200"), Ok(115_200));
    assert_eq!(valid_baud("0"), Ok(0));
    assert_eq!(valid_baud("9600"), Ok(9600));
    assert_eq!(valid_baud("4294967295"), Ok(u32::MAX));
    assert_eq!(valid_baud("+300"), Ok(300));
    assert_eq!(valid_baud("0000000000000000019200"), Ok(19200));
}

#[test]
fn baud_rate_that_is_no_u32_is_refused() {
    for val in ["", "+", "-", "-1", "4294967296", "99999999999999999999999", "12a", " 12", "12 ", "++1", "1_000", "0x10", "\u{663}"] {
        assert_eq!(
            valid_baud(val),
            Err(format!("Invalid baud rate '{}' specified, expected valid u32", val))
        );
    }
}

#[test]
fn numbers_are_read_as_the_standard_library_reads_them() {
    for val in [
        "", "+", "-", "0", "+0", "-0", "7", "42", "+42", "4294967295", "4294967296", "4294967300",
        "42949672950", "00000000004294967295", "1e3", "12.5", "abc", "٣", "1 2", "+-1", "18446744073709551616",
    ] {
        assert_eq!(parse_u32(val), val.parse::<u32>().ok());
    }
}

#[test]
fn data_bits_are_five_to_eight() {
    let bits = valid_data_bits("5").unwrap();
    assert_eq!((bits.name.as_str(), bits.value), ("5", DataBits::Five));
    let bits = valid_data_bits("6").unwrap();
    assert_eq!((bits.name.as_str(), bits.value), ("6", DataBits::Six));
    let bits = valid_data_bits("7").unwrap();
    assert_eq!((bits.name.as_str(), bits.value), ("7", DataBits::Seven));
    let bits = valid_data_bits("8").unwrap();
    assert_eq!((bits.name.as_str(), bits.value), ("8", DataBits::Eight));
}

#[test]
fn other_data_bits_are_refused() {
    for val in ["", "4", "9", "08", "eight", " 8"] {
        assert_eq!(
            valid_data_bits(val).unwrap_err(),
            format!("Invalid data bits '{}' specified, expected 5 <= bits <= 8", val)
        );
    }
}

#[test]
fn flow_control_is_named_in_any_case() {
    for (val, value) in [
        ("none", FlowControl::Off),
        ("None", FlowControl::Off),
        ("hardware", FlowControl::Hardware),
        ("HW", FlowControl::Hardware),
        ("hw", FlowControl::Hardware),
        ("Software", FlowControl::Software),
        ("sW", FlowControl::Software),
    ] {
        let flow = valid_flow_control(val).unwrap();
        assert_eq!(flow.name, val);
        assert_eq!(flow.value, value);
    }
}

#[test]
fn other_flow_control_is_refused() {
    for val in ["", "no", "hard", "xon", "h w"] {
        assert_eq!(
            valid_flow_control(val).unwrap_err(),
            format!("Invalid flow control '{}' specified, expected 'none', 'hw', or 'sw'", val)
        );
    }
}

#[test]
fn parity_is_named_in_any_case() {
    for (val, value) in [
        ("none", Parity::Off),
        ("NONE", Parity::Off),
        ("odd", Parity::Odd),
        ("Odd", Parity::Odd),
        ("even", Parity::Even),
        ("EVEN", Parity::Even),
    ] {
        let parity = valid_parity(val).unwrap();
        assert_eq!(parity.name, val);
        assert_eq!(parity.value, value);
    }
}

#[test]
fn other_parity_is_refused() {
    for val in ["", "o", "e", "mark", "space", "odd "] {
        assert_eq!(
            valid_parity(val).unwrap_err(),
            format!("Invalid parity '{}' specified, expected 'none', 'odd', or 'even'", val)
        );
    }
}

#[test]
fn stop_bits_are_one_or_two() {
    for (val, value) in [
        ("1", StopBits::One),
        ("one", StopBits::One),
        ("ONE", StopBits::One),
        ("2", StopBits::Two),
        ("two", StopBits::Two),
        ("Two", StopBits::Two),
    ] {
        let bits = valid_stop_bits(val).unwrap();
        assert_eq!(bits.name, val);
        assert_eq!(bits.value, value);
    }
}

#[test]
fn other_stop_bits_are_refused() {
    for val in ["", "0", "3", "1.5", "three"] {
        assert_eq!(
            valid_stop_bits(val).unwrap_err(),
            format!("Invalid baud rate '{}' specified, expected 1 or 2", val)
        );
    }
}

#[test]
fn checks_on_a_lower_case_form_go_by_that_form() {
    let flow = flow_control_from("HW", "hw").unwrap();
    assert_eq!((flow.name.as_str(), flow.value), ("HW", FlowControl::Hardware));
    assert!(flow_control_from("hw", "HW").is_err());
    let parity = parity_from("Even", "even").unwrap();
    assert_eq!((parity.name.as_str(), parity.value), ("Even", Parity::Even));
    assert!(parity_from("even", "Even").is_err());
    let bits = stop_bits_from("TWO", "two").unwrap();
    assert_eq!((bits.name.as_str(), bits.value), ("TWO", StopBits::Two));
    assert!(stop_bits_from("two", "TWO").is_err());
}

#[test]
fn setting_is_shown_as_it_was_given() {
    let shown = CLIDisplay { name: String::from("Even"), value: Parity::Even };
    assert_eq!(shown.to_text(), "Even");
    let copy = shown.clone();
    assert_eq!(copy.name, "Even");
    assert_eq!(copy.value, Parity::Even);
}
