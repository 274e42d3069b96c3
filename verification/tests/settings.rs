use klemme::display::DisplayMode;
use klemme::settings_mode::SettingsMode;

#[test]
fn settings_defaults() {
    let s = SettingsMode::new();
    assert_eq!(s.port, "");
    assert_eq!(s.baud, 9600);
    assert_eq!(s.stopbits, 1);
    assert_eq!(s.parity, "None");
    assert_eq!(s.databits, 8);
    assert_eq!(s.display_mode, DisplayMode::Hex);
    assert!(!s.active);
}

#[test]
fn baud_rotation_cycles_and_recovers() {
    let mut s = SettingsMode::new();
    let expected = [19200, 38400, 57600, 115200, 230400, 460800, 921600, 9600];
    for e in expected {
        s.rotate_baudrate();
        assert_eq!(s.baud, e);
    }
    // a rate outside the list rotates to the second entry:
    let mut s = SettingsMode::with_values(
        String::new(),
        1234,
        1,
        "None".to_string(),
        8,
        DisplayMode::Hex,
    );
    s.rotate_baudrate();
    assert_eq!(s.baud, 19200);
}

#[test]
fn stopbits_and_databits_rotation_cycle() {
    let mut s = SettingsMode::new();
    s.rotate_stopbits();
    assert_eq!(s.stopbits, 2);
    s.rotate_stopbits();
    assert_eq!(s.stopbits, 3);
    s.rotate_stopbits();
    assert_eq!(s.stopbits, 1);

    s.rotate_databits();
    assert_eq!(s.databits, 9);
    s.rotate_databits();
    assert_eq!(s.databits, 5);
    s.rotate_databits();
    assert_eq!(s.databits, 6);
}

#[test]
fn parity_rotation_cycles() {
    let mut s = SettingsMode::new();
    s.rotate_parity();
    assert_eq!(s.parity, "Odd");
    s.rotate_parity();
    assert_eq!(s.parity, "Even");
    s.rotate_parity();
    assert_eq!(s.parity, "None");
}

#[test]
fn display_mode_rotation_cycles() {
    let mut s = SettingsMode::new();
    assert_eq!(s.get_display_mode(), DisplayMode::Hex);
    s.rotate_display_mode();
    assert_eq!(s.get_display_mode(), DisplayMode::Ascii);
    s.rotate_display_mode();
    assert_eq!(s.get_display_mode(), DisplayMode::MixedHex);
    s.rotate_display_mode();
    assert_eq!(s.get_display_mode(), DisplayMode::MixedDec);
    s.rotate_display_mode();
    assert_eq!(s.get_display_mode(), DisplayMode::Decimal);
    s.rotate_display_mode();
    assert_eq!(s.get_display_mode(), DisplayMode::Hex);
}

#[test]
fn port_rotation_with_an_empty_list_clears_the_port() {
    let mut s = SettingsMode::new();
    s.rotate_port(&Vec::new());
    assert_eq!(s.port, "");
}

#[test]
fn port_rotation_selects_the_first_port_when_none_matches() {
    let mut s = SettingsMode::new();
    let ports = vec!["ttyS0".to_string(), "ttyS1".to_string()];
    s.rotate_port(&ports);
    assert_eq!(s.port, "ttyS0");
}

#[test]
fn port_rotation_advances_cyclically() {
    let mut s = SettingsMode::new();
    let ports = vec!["ttyS0".to_string(), "ttyS1".to_string(), "ttyS2".to_string()];
    s.rotate_port(&ports);
    assert_eq!(s.port, "ttyS0");
    s.rotate_port(&ports);
    assert_eq!(s.port, "ttyS1");
    s.rotate_port(&ports);
    assert_eq!(s.port, "ttyS2");
    s.rotate_port(&ports);
    assert_eq!(s.port, "ttyS0");
}
