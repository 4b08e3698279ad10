//! The generic command set, parsed through each module's combined parser.

use fl16_inputmodules::control::ledmatrix::parse_command_ledmatrix;
use fl16_inputmodules::control::b1display::parse_command_b1display;
use fl16_inputmodules::control::c1minimal::parse_command_c1minimal;
use fl16_inputmodules::control::Command;

#[test]
fn version_frame_parses_on_every_module() {
    let buf = vec![0x32, 0xAC, 0x20];
    assert!(matches!(
        parse_command_ledmatrix(3, &buf),
        Some(Command::Version)
    ));
    assert!(matches!(
        parse_command_b1display(3, &buf),
        Some(Command::Version)
    ));
    assert!(matches!(
        parse_command_c1minimal(3, &buf),
        Some(Command::Version)
    ));
}

#[test]
fn sleep_query_and_set() {
    let query = vec![0x32, 0xAC, 0x03];
    assert!(matches!(
        parse_command_ledmatrix(3, &query),
        Some(Command::IsSleeping)
    ));
    let set = vec![0x32, 0xAC, 0x03, 0x01];
    assert!(matches!(
        parse_command_ledmatrix(4, &set),
        Some(Command::Sleep(true))
    ));
    let wake = vec![0x32, 0xAC, 0x03, 0x00];
    assert!(matches!(
        parse_command_ledmatrix(4, &wake),
        Some(Command::Sleep(false))
    ));
}

#[test]
fn bootloader_and_panic() {
    let bl = vec![0x32, 0xAC, 0x02];
    assert!(matches!(
        parse_command_b1display(3, &bl),
        Some(Command::BootloaderReset)
    ));
    let panic_frame = vec![0x32, 0xAC, 0x05];
    assert!(matches!(
        parse_command_c1minimal(3, &panic_frame),
        Some(Command::Panic)
    ));
}

#[test]
fn bad_magic_is_dropped() {
    let buf = vec![0x31, 0xAC, 0x20];
    assert!(parse_command_ledmatrix(3, &buf).is_none());
    let buf2 = vec![0x32, 0xAB, 0x20];
    assert!(parse_command_ledmatrix(3, &buf2).is_none());
}

#[test]
fn short_frame_is_dropped() {
    let buf = vec![0x32, 0xAC, 0x20];
    assert!(parse_command_ledmatrix(2, &buf).is_none());
    assert!(parse_command_ledmatrix(0, &buf).is_none());
}

#[test]
fn unknown_opcode_is_dropped() {
    // 0x1D sits in the gap of the opcode table.
    let buf = vec![0x32, 0xAC, 0x1D];
    assert!(parse_command_ledmatrix(3, &buf).is_none());
    let buf2 = vec![0x32, 0xAC, 0xFF];
    assert!(parse_command_b1display(3, &buf2).is_none());
}

#[test]
fn parse_is_deterministic_on_same_bytes() {
    let buf = vec![0x32, 0xAC, 0x03, 0x01];
    let first = matches!(parse_command_ledmatrix(4, &buf), Some(Command::Sleep(true)));
    let second = matches!(parse_command_ledmatrix(4, &buf), Some(Command::Sleep(true)));
    assert!(first && second);
}
