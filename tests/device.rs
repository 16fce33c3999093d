use maestro::device::{
    parse_decimal_usize, parse_port_number, select_output_port, DeviceConfig, DeviceError,
};

#[test]
fn preferred_port_is_remembered() {
    let mut c = DeviceConfig::new();
    assert_eq!(c.preferred_port(), None);
    assert_eq!(c.port_to_open(), Err(DeviceError::NoPreferredPort));
    c.set_preferred_port(2);
    assert_eq!(c.preferred_port(), Some(2));
    assert_eq!(c.port_to_open(), Ok(2));
    c.set_preferred_port(0);
    assert_eq!(c.port_to_open(), Ok(0));
}

#[test]
fn output_port_must_exist() {
    assert_eq!(select_output_port(0, 1), Ok(0));
    assert_eq!(select_output_port(2, 3), Ok(2));
    assert_eq!(select_output_port(3, 3), Err(DeviceError::NoSuchPort));
    assert_eq!(select_output_port(0, 0), Err(DeviceError::NoSuchPort));
}

#[test]
fn decimal_parsing_matches_usize_from_str() {
    for s in ["0", "7", "42", "+5", "0012", "18446744073709551615", "", "+", "-1", "1 2", "x", "4a", "18446744073709551616", "99999999999999999999999"] {
        assert_eq!(parse_decimal_usize(s), s.parse::<usize>().ok(), "input {:?}", s);
    }
}

#[test]
fn port_numbers_are_trimmed() {
    assert_eq!(parse_port_number("3\n"), Some(3));
    assert_eq!(parse_port_number("  12 \r\n"), Some(12));
    assert_eq!(parse_port_number("\t\n"), None);
    assert_eq!(parse_port_number("two\n"), None);
}
