//! The bistable display module's own command set.

use fl16_inputmodules::control::b1display::{
    is_valid_utf8, parse_command_b1display, B1DisplayCommand,
};
use fl16_inputmodules::control::Command;

fn frame(rest: &[u8]) -> Vec<u8> {
    let mut buf = vec![0x32, 0xAC];
    buf.extend_from_slice(rest);
    buf
}

#[test]
fn set_text_carries_declared_bytes() {
    let mut body = vec![0x09, 5];
    body.extend_from_slice(b"HELLO");
    let buf = frame(&body);
    match parse_command_b1display(buf.len(), &buf) {
        Some(Command::B1DisplayCommand(B1DisplayCommand::SetText(text))) => {
            assert_eq!(text, b"HELLO".to_vec());
        }
        _ => panic!("expected a SetText command"),
    }
}

#[test]
fn set_text_length_exceeding_payload_is_dropped() {
    // Declared length 6, but only 5 bytes follow.
    let mut body = vec![0x09, 6];
    body.extend_from_slice(b"HELLO");
    let buf = frame(&body);
    assert!(parse_command_b1display(buf.len(), &buf).is_none());
}

#[test]
fn set_text_length_limit_is_31() {
    let mut body = vec![0x09, 31];
    body.extend_from_slice(&[b'a'; 31]);
    let buf = frame(&body);
    assert!(matches!(
        parse_command_b1display(buf.len(), &buf),
        Some(Command::B1DisplayCommand(B1DisplayCommand::SetText(_)))
    ));
    let mut body2 = vec![0x09, 32];
    body2.extend_from_slice(&[b'a'; 32]);
    let buf2 = frame(&body2);
    assert!(parse_command_b1display(buf2.len(), &buf2).is_none());
}

#[test]
fn set_text_accepts_multibyte_utf8() {
    let text = "héllo✓".as_bytes();
    let mut body = vec![0x09, text.len() as u8];
    body.extend_from_slice(text);
    let buf = frame(&body);
    match parse_command_b1display(buf.len(), &buf) {
        Some(Command::B1DisplayCommand(B1DisplayCommand::SetText(payload))) => {
            assert_eq!(payload, text.to_vec());
        }
        _ => panic!("expected a SetText command"),
    }
}

#[test]
fn set_text_with_invalid_utf8_is_dropped() {
    // A stray continuation byte is not a UTF-8 text.
    let buf = frame(&[0x09, 2, b'a', 0x80]);
    assert!(parse_command_b1display(buf.len(), &buf).is_none());
    // A truncated two-byte sequence is not either.
    let buf2 = frame(&[0x09, 1, 0xC3]);
    assert!(parse_command_b1display(buf2.len(), &buf2).is_none());
}

#[test]
fn utf8_validation_matches_the_standard_library() {
    let cases: Vec<Vec<u8>> = vec![
        vec![],
        b"plain ascii".to_vec(),
        "héllo✓𝄞".as_bytes().to_vec(),
        vec![0x7F],
        vec![0x80],                      // stray continuation
        vec![0xC3],                      // truncated two-byte sequence
        vec![0xC3, 0x28],                // bad continuation
        vec![0xC0, 0x80],                // overlong two-byte encoding
        vec![0xC1, 0xBF],                // overlong two-byte encoding
        vec![0xC2, 0x80],                // smallest legal two-byte scalar
        vec![0xE0, 0x80, 0x80],          // overlong three-byte encoding
        vec![0xE0, 0xA0, 0x80],          // smallest legal three-byte scalar
        vec![0xED, 0xA0, 0x80],          // surrogate
        vec![0xED, 0x9F, 0xBF],          // last scalar before the surrogates
        vec![0xEE, 0x80, 0x80],          // first scalar after the surrogates
        vec![0xE2, 0x82],                // truncated three-byte sequence
        vec![0xF0, 0x80, 0x80, 0x80],    // overlong four-byte encoding
        vec![0xF0, 0x90, 0x80, 0x80],    // smallest legal four-byte scalar
        vec![0xF4, 0x8F, 0xBF, 0xBF],    // the largest scalar
        vec![0xF4, 0x90, 0x80, 0x80],    // beyond the largest scalar
        vec![0xF8, 0x80, 0x80, 0x80],    // no such leading byte
        vec![0xFF],
        vec![0xF0, 0x9F, 0x92],          // truncated four-byte sequence
    ];
    for bytes in cases {
        assert_eq!(
            is_valid_utf8(&bytes),
            std::str::from_utf8(&bytes).is_ok(),
            "bytes {bytes:02x?}"
        );
    }
}

#[test]
fn set_text_without_length_byte_is_dropped() {
    let buf = frame(&[0x09]);
    assert!(parse_command_b1display(buf.len(), &buf).is_none());
}

#[test]
fn display_on_and_invert() {
    let on = frame(&[0x14, 0x01]);
    assert!(matches!(
        parse_command_b1display(on.len(), &on),
        Some(Command::DisplayOn(true))
    ));
    let get_on = frame(&[0x14]);
    assert!(matches!(
        parse_command_b1display(get_on.len(), &get_on),
        Some(Command::GetDisplayOn)
    ));
    let invert = frame(&[0x15, 0x00]);
    assert!(matches!(
        parse_command_b1display(invert.len(), &invert),
        Some(Command::InvertScreen(false))
    ));
    let get_invert = frame(&[0x15]);
    assert!(matches!(
        parse_command_b1display(get_invert.len(), &get_invert),
        Some(Command::GetInvertScreen)
    ));
}

#[test]
fn set_pixel_column_needs_exactly_55_bytes() {
    let mut body = vec![0x16, 0x03, 0x00];
    body.extend_from_slice(&[0b10101010; 50]);
    let buf = frame(&body);
    assert_eq!(buf.len(), 55);
    match parse_command_b1display(buf.len(), &buf) {
        Some(Command::SetPixelColumn(column, bytes)) => {
            assert_eq!(column, 3);
            assert_eq!(bytes, vec![0b10101010; 50]);
        }
        _ => panic!("expected a SetPixelColumn command"),
    }
    // One byte short or long: dropped.
    let short = &buf[..54];
    assert!(parse_command_b1display(54, short).is_none());
    let mut long = buf.clone();
    long.push(0);
    assert!(parse_command_b1display(56, &long).is_none());
}

#[test]
fn set_pixel_column_reads_column_little_endian() {
    let mut body = vec![0x16, 0x34, 0x12];
    body.extend_from_slice(&[0; 50]);
    let buf = frame(&body);
    match parse_command_b1display(buf.len(), &buf) {
        Some(Command::SetPixelColumn(column, _)) => assert_eq!(column, 0x1234),
        _ => panic!("expected a SetPixelColumn command"),
    }
}

#[test]
fn flush_and_clear() {
    let flush = frame(&[0x17]);
    assert!(matches!(
        parse_command_b1display(flush.len(), &flush),
        Some(Command::FlushFramebuffer)
    ));
    let clear = frame(&[0x18]);
    assert!(matches!(
        parse_command_b1display(clear.len(), &clear),
        Some(Command::ClearRam)
    ));
}

#[test]
fn screensaver_fps_power_mode() {
    let saver_on = frame(&[0x19, 0x01]);
    assert!(matches!(
        parse_command_b1display(saver_on.len(), &saver_on),
        Some(Command::ScreenSaver(true))
    ));
    let saver_get = frame(&[0x19]);
    assert!(matches!(
        parse_command_b1display(saver_get.len(), &saver_get),
        Some(Command::GetScreenSaver)
    ));
    let fps_set = frame(&[0x1A, 0x11]);
    assert!(matches!(
        parse_command_b1display(fps_set.len(), &fps_set),
        Some(Command::SetFps(0x11))
    ));
    let fps_get = frame(&[0x1A]);
    assert!(matches!(
        parse_command_b1display(fps_get.len(), &fps_get),
        Some(Command::GetFps)
    ));
    let pm_set = frame(&[0x1B, 0x01]);
    assert!(matches!(
        parse_command_b1display(pm_set.len(), &pm_set),
        Some(Command::SetPowerMode(1))
    ));
    let pm_get = frame(&[0x1B]);
    assert!(matches!(
        parse_command_b1display(pm_get.len(), &pm_get),
        Some(Command::GetPowerMode)
    ));
}

#[test]
fn display_animation_period_is_length_discriminated() {
    let set = frame(&[0x1C, 0xE8, 0x03]);
    assert!(matches!(
        parse_command_b1display(set.len(), &set),
        Some(Command::SetAnimationPeriod(1000))
    ));
    let get = frame(&[0x1C]);
    assert!(matches!(
        parse_command_b1display(get.len(), &get),
        Some(Command::GetAnimationPeriod)
    ));
}

#[test]
fn matrix_opcodes_are_not_display_commands() {
    // Draw is a matrix opcode; the display drops it.
    let buf = frame(&[0x06, 0x00]);
    assert!(parse_command_b1display(buf.len(), &buf).is_none());
}
