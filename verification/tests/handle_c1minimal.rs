//! The minimal indicator handler.

use fl16_inputmodules::control::c1minimal::{
    handle_command_c1minimal, C1MinimalAction, C1MinimalCommand, C1MinimalState, Rgb8,
    SimpleSleepState,
};
use fl16_inputmodules::control::Command;

fn fresh_state() -> C1MinimalState {
    C1MinimalState {
        sleeping: SimpleSleepState::Awake,
        color: Rgb8 { r: 0, g: 255, b: 0 },
        brightness: 255,
    }
}

const RELEASE: u16 = 0x0001;

#[test]
fn color_set_then_get() {
    let mut state = fresh_state();
    let set = Command::C1MinimalCommand(C1MinimalCommand::SetColor(Rgb8 { r: 1, g: 2, b: 3 }));
    let (reply, action) = handle_command_c1minimal(&set, &mut state, RELEASE, false);
    assert!(reply.is_none());
    assert!(matches!(action, C1MinimalAction::UpdateLed));
    assert_eq!(state.color, Rgb8 { r: 1, g: 2, b: 3 });

    let (reply, _) = handle_command_c1minimal(&Command::GetColor, &mut state, RELEASE, false);
    let reply = reply.expect("color query must reply");
    assert_eq!((reply[0], reply[1], reply[2]), (1, 2, 3));
}

#[test]
fn indicator_brightness_set_then_get() {
    let mut state = fresh_state();
    let (reply, action) =
        handle_command_c1minimal(&Command::SetBrightness(10), &mut state, RELEASE, false);
    assert!(reply.is_none());
    assert!(matches!(action, C1MinimalAction::UpdateLed));
    assert_eq!(state.brightness, 10);

    let (reply, _) = handle_command_c1minimal(&Command::GetBrightness, &mut state, RELEASE, false);
    assert_eq!(reply.expect("brightness query must reply")[0], 10);
}

#[test]
fn indicator_sleeping_flag_is_reported() {
    let mut state = fresh_state();
    let (reply, _) = handle_command_c1minimal(&Command::IsSleeping, &mut state, RELEASE, false);
    assert_eq!(reply.expect("sleep query must reply")[0], 0);
    state.sleeping = SimpleSleepState::Sleeping;
    let (reply, _) = handle_command_c1minimal(&Command::IsSleeping, &mut state, RELEASE, false);
    assert_eq!(reply.expect("sleep query must reply")[0], 1);
}

#[test]
fn version_falls_through_to_the_generic_handler() {
    let mut state = fresh_state();
    let (reply, action) = handle_command_c1minimal(&Command::Version, &mut state, 0x0205, true);
    let reply = reply.expect("version must reply");
    assert_eq!((reply[0], reply[1], reply[2]), (0x02, 0x05, 1));
    assert!(matches!(action, C1MinimalAction::NoAction));
}
