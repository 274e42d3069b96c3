use klemme::interactive_mode::CRLFSetting;
use klemme::interactive_mode::InputMode;
use klemme::interactive_mode::InteractiveMode;
use klemme::interactive_mode::hex_input_is_wf;

fn type_line(mode: &mut InteractiveMode, line: &str) {
    for c in line.chars() {
        mode.push_input_char(c);
    }
}

#[test]
fn interactive_mode_starts_empty() {
    let mode = InteractiveMode::new();
    assert!(!mode.active);
    assert!(mode.send_buffer.is_empty());
    assert_eq!(mode.input_mode, InputMode::Default);
    assert_eq!(mode.crlf, CRLFSetting::Off);
}

#[test]
fn default_mode_accepts_every_character() {
    let mut mode = InteractiveMode::new();
    type_line(&mut mode, "hi!");
    assert_eq!(mode.send_buffer, vec![b'h', b'i', b'!']);
}

#[test]
fn hex_mode_accepts_only_hex_digits_and_spaces() {
    let mut mode = InteractiveMode::new();
    mode.rotate_input_mode();
    assert_eq!(mode.input_mode, InputMode::Hex);
    type_line(&mut mode, "4g 1zF");
    assert_eq!(mode.send_buffer, vec![b'4', b' ', b'1', b'F']);
}

#[test]
fn backspace_removes_the_last_character() {
    let mut mode = InteractiveMode::new();
    type_line(&mut mode, "ab");
    mode.backspace();
    assert_eq!(mode.send_buffer, vec![b'a']);
    mode.backspace();
    mode.backspace();
    assert!(mode.send_buffer.is_empty());
}

#[test]
fn send_packs_hex_digit_pairs_into_bytes() {
    let mut mode = InteractiveMode::new();
    mode.rotate_input_mode();
    type_line(&mut mode, "41 42 0a");
    assert!(hex_input_is_wf(&mode.send_buffer));
    let sent = mode.send_tx_buffer();
    assert_eq!(sent, vec![0x41, 0x42, 0x0A]);
    assert!(mode.send_buffer.is_empty());
}

#[test]
fn send_ignores_a_trailing_single_digit() {
    let mut mode = InteractiveMode::new();
    mode.rotate_input_mode();
    type_line(&mut mode, "41 4");
    assert!(hex_input_is_wf(&mode.send_buffer));
    let sent = mode.send_tx_buffer();
    assert_eq!(sent, vec![0x41]);
}

#[test]
fn a_space_inside_a_pair_is_not_well_formed() {
    // "1 2" starts a pair at '1' whose second character is the space, so
    // the buffer cannot be packed.
    assert!(!hex_input_is_wf(&vec![b'1', b' ', b'2']));
    assert!(hex_input_is_wf(&vec![b'1', b'2', b' ']));
    assert!(hex_input_is_wf(&vec![b' ', b'1', b'2']));
    assert!(hex_input_is_wf(&Vec::new()));
    assert!(hex_input_is_wf(&vec![b'4']));
    assert!(!hex_input_is_wf(&vec![b'4', b'g']));
}

#[test]
fn send_in_default_mode_passes_the_bytes_through() {
    let mut mode = InteractiveMode::new();
    type_line(&mut mode, "AB");
    let sent = mode.send_tx_buffer();
    assert_eq!(sent, vec![b'A', b'B']);
}

#[test]
fn line_endings_are_appended_per_setting() {
    let mut mode = InteractiveMode::new();
    mode.rotate_crlf_setting();
    assert_eq!(mode.crlf, CRLFSetting::CR);
    type_line(&mut mode, "x");
    assert_eq!(mode.send_tx_buffer(), vec![b'x', 0x0D]);

    mode.rotate_crlf_setting();
    assert_eq!(mode.crlf, CRLFSetting::LF);
    type_line(&mut mode, "x");
    assert_eq!(mode.send_tx_buffer(), vec![b'x', 0x0A]);

    mode.rotate_crlf_setting();
    assert_eq!(mode.crlf, CRLFSetting::CRLF);
    type_line(&mut mode, "x");
    assert_eq!(mode.send_tx_buffer(), vec![b'x', 0x0D, 0x0A]);

    mode.rotate_crlf_setting();
    assert_eq!(mode.crlf, CRLFSetting::Off);
    type_line(&mut mode, "x");
    assert_eq!(mode.send_tx_buffer(), vec![b'x']);
}

#[test]
fn input_mode_rotation_cycles() {
    let mut mode = InteractiveMode::new();
    mode.rotate_input_mode();
    assert_eq!(mode.input_mode, InputMode::Hex);
    mode.rotate_input_mode();
    assert_eq!(mode.input_mode, InputMode::Default);
}
