//! The minimal indicator module's own command set.

use fl16_inputmodules::control::c1minimal::{
    parse_command_c1minimal, C1MinimalCommand, Rgb8,
};
use fl16_inputmodules::control::Command;

fn frame(rest: &[u8]) -> Vec<u8> {
    let mut buf = vec![0x32, 0xAC];
    buf.extend_from_slice(rest);
    buf
}

#[test]
fn indicator_brightness_get_and_set() {
    let get = frame(&[0x00]);
    assert!(matches!(
        parse_command_c1minimal(get.len(), &get),
        Some(Command::GetBrightness)
    ));
    let set = frame(&[0x00, 200]);
    assert!(matches!(
        parse_command_c1minimal(set.len(), &set),
        Some(Command::SetBrightness(200))
    ));
}

#[test]
fn color_get_and_set() {
    let get = frame(&[0x13]);
    assert!(matches!(
        parse_command_c1minimal(get.len(), &get),
        Some(Command::GetColor)
    ));
    let set = frame(&[0x13, 10, 20, 30]);
    match parse_command_c1minimal(set.len(), &set) {
        Some(Command::C1MinimalCommand(C1MinimalCommand::SetColor(color))) => {
            assert_eq!(color, Rgb8 { r: 10, g: 20, b: 30 });
        }
        _ => panic!("expected a SetColor command"),
    }
}

#[test]
fn color_set_with_short_payload_is_dropped() {
    // An argument is present but fewer than three payload bytes follow.
    let buf = frame(&[0x13, 10, 20]);
    assert!(parse_command_c1minimal(buf.len(), &buf).is_none());
    let buf2 = frame(&[0x13, 10]);
    assert!(parse_command_c1minimal(buf2.len(), &buf2).is_none());
}

#[test]
fn matrix_opcodes_are_not_indicator_commands() {
    let buf = frame(&[0x01, 0x01]);
    assert!(parse_command_c1minimal(buf.len(), &buf).is_none());
}
