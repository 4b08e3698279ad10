//! The sleep/wake arbiter, the power state machine and the loop decisions.

use fl16_inputmodules::control::ledmatrix::PwmFreqArg;
use fl16_inputmodules::control::Command;
use fl16_inputmodules::matrix::{
    GameState, Grid, LedmatrixState, PongState, SleepReason, SleepState, HEIGHT, WIDTH,
};
use fl16_inputmodules::scheduler::{
    assign_sleep_reason, debug_mode, dyn_sleep_mode, evaluate_sleep_signals, fade_down_steps,
    fade_up_steps, game_step_period, handle_sleep, render_due, retarget_captured_brightness,
    sleep_reason_after_command, sleep_timeout_elapsed, usb_flags_after_poll, PowerAction,
    SleepMode, SleepSignals, UsbDeviceStatus,
};

fn fresh_state() -> LedmatrixState {
    LedmatrixState {
        grid: Grid::default(),
        col_buffer: Grid::default(),
        auto_scroll: false,
        brightness: 51,
        sleep_state: SleepState::Awake,
        game: None,
        animation_period: 31_250,
        pwm_freq: PwmFreqArg::P29k,
        debug_mode: false,
        upcoming_frames: None,
    }
}

fn checkered_grid() -> Grid {
    let mut grid = Grid::default();
    for x in 0..WIDTH {
        for y in 0..HEIGHT {
            if (x + y) % 2 == 0 {
                grid.set_cell(x, y, 200);
            }
        }
    }
    grid
}

#[test]
fn arbiter_adopts_clears_and_keeps() {
    // A source that stops requesting sleep clears the reason.
    assert_eq!(
        assign_sleep_reason(None, Some(SleepReason::SleepPin), false, true, SleepReason::SleepPin),
        None
    );
    // A fresh request adopts the candidate.
    assert_eq!(
        assign_sleep_reason(None, None, true, true, SleepReason::UsbSuspend),
        Some(SleepReason::UsbSuspend)
    );
    // Re-asserting the reason active since last tick keeps the current one.
    assert_eq!(
        assign_sleep_reason(
            Some(SleepReason::Timeout),
            Some(SleepReason::Timeout),
            true,
            true,
            SleepReason::Timeout
        ),
        Some(SleepReason::Timeout)
    );
    // An unchanged signal never restarts the transition.
    assert_eq!(
        assign_sleep_reason(
            Some(SleepReason::SleepPin),
            Some(SleepReason::SleepPin),
            true,
            false,
            SleepReason::Timeout
        ),
        Some(SleepReason::SleepPin)
    );
    // A changed signal with a new reason overrides.
    assert_eq!(
        assign_sleep_reason(
            Some(SleepReason::SleepPin),
            Some(SleepReason::SleepPin),
            true,
            true,
            SleepReason::Command
        ),
        Some(SleepReason::Command)
    );
}

#[test]
fn tick_evaluation_respects_the_fixed_order() {
    // Both the pin and the timeout assert in one tick: the timeout, being
    // evaluated later, wins.
    let signals = SleepSignals {
        sleep_present: true,
        host_sleeping: true,
        last_host_sleep: false,
        usb_initialized: true,
        usb_suspended: false,
        last_usb_suspended: false,
        timed_out: true,
    };
    assert_eq!(
        evaluate_sleep_signals(None, None, signals, false),
        Some(SleepReason::Timeout)
    );
    // In debug mode the timeout is never evaluated.
    assert_eq!(
        evaluate_sleep_signals(None, None, signals, true),
        Some(SleepReason::SleepPin)
    );
}

#[test]
fn quiet_sources_are_not_evaluated() {
    // The pin is idle and unchanged; the reason set by USB suspension stays.
    let signals = SleepSignals {
        sleep_present: true,
        host_sleeping: false,
        last_host_sleep: false,
        usb_initialized: true,
        usb_suspended: true,
        last_usb_suspended: true,
        timed_out: false,
    };
    assert_eq!(
        evaluate_sleep_signals(
            Some(SleepReason::UsbSuspend),
            Some(SleepReason::UsbSuspend),
            signals,
            false
        ),
        Some(SleepReason::UsbSuspend)
    );
}

#[test]
fn uninitialized_usb_cannot_request_sleep() {
    let signals = SleepSignals {
        sleep_present: false,
        host_sleeping: false,
        last_host_sleep: false,
        usb_initialized: false,
        usb_suspended: true,
        last_usb_suspended: false,
        timed_out: false,
    };
    assert_eq!(evaluate_sleep_signals(None, None, signals, false), None);
}

#[test]
fn sleep_wake_round_trip_restores_grid_and_brightness() {
    let mut state = fresh_state();
    state.grid = checkered_grid();
    state.brightness = 187;
    let shown = checkered_grid();

    let action = handle_sleep(Some(SleepReason::UsbSuspend), &mut state);
    assert!(!state.sleep_state.is_awake());
    match action {
        PowerAction::EnterSleep { fade, fade_from, show_glyph } => {
            assert!(fade);
            assert_eq!(fade_from, 187);
            assert!(!show_glyph);
        }
        _ => panic!("expected an EnterSleep action"),
    }
    // The fade ends dark.
    assert_eq!(state.brightness, 0);

    let action = handle_sleep(None, &mut state);
    assert!(state.sleep_state.is_awake());
    match action {
        PowerAction::Wake { fade, fade_to, power_on } => {
            assert!(fade);
            assert_eq!(fade_to, 187);
            assert!(power_on);
        }
        _ => panic!("expected a Wake action"),
    }
    assert_eq!(state.brightness, 187);
    for x in 0..WIDTH {
        assert_eq!(state.grid.0[x], shown.0[x]);
    }
}

#[test]
fn sleeping_again_keeps_the_captured_state() {
    let mut state = fresh_state();
    state.grid = checkered_grid();
    state.brightness = 90;
    handle_sleep(Some(SleepReason::SleepPin), &mut state);
    // The reason changes while asleep; the capture must survive.
    let action = handle_sleep(Some(SleepReason::Timeout), &mut state);
    assert!(matches!(action, PowerAction::Stay));
    handle_sleep(None, &mut state);
    assert_eq!(state.brightness, 90);
    assert_eq!(state.grid.0, checkered_grid().0);
}

#[test]
fn debug_mode_shows_glyph_and_keeps_brightness() {
    let mut state = fresh_state();
    state.debug_mode = true;
    state.brightness = 77;
    assert_eq!(dyn_sleep_mode(&state), SleepMode::Debug);
    assert!(debug_mode(&state));

    let action = handle_sleep(Some(SleepReason::Command), &mut state);
    match action {
        PowerAction::EnterSleep { fade, show_glyph, .. } => {
            assert!(!fade);
            assert!(show_glyph);
        }
        _ => panic!("expected an EnterSleep action"),
    }
    // No fade in debug mode: brightness untouched, grid shows the glyph.
    assert_eq!(state.brightness, 77);
    assert_eq!(state.grid.0[0][0], 1);

    // A new reason while asleep refreshes the glyph.
    let action = handle_sleep(Some(SleepReason::Timeout), &mut state);
    assert!(matches!(action, PowerAction::RefreshGlyph));
    assert_eq!(state.grid.0[0][0], 3);

    let action = handle_sleep(None, &mut state);
    match action {
        PowerAction::Wake { fade, power_on, .. } => {
            assert!(!fade);
            assert!(!power_on);
        }
        _ => panic!("expected a Wake action"),
    }
    assert_eq!(state.brightness, 77);
    // The pre-sleep grid is restored.
    assert_eq!(state.grid.0, Grid::default().0);
}

#[test]
fn any_command_wakes_but_sleep_is_arbitrated() {
    let current = Some(SleepReason::Timeout);
    let last = Some(SleepReason::Timeout);
    assert_eq!(
        sleep_reason_after_command(&Command::GetBrightness, last, current),
        None
    );
    assert_eq!(
        sleep_reason_after_command(&Command::Sleep(true), None, None),
        Some(SleepReason::Command)
    );
    assert_eq!(
        sleep_reason_after_command(&Command::Sleep(false), last, current),
        None
    );
}

#[test]
fn set_brightness_while_asleep_retargets_the_captured_value() {
    let mut state = fresh_state();
    state.grid = checkered_grid();
    state.brightness = 120;
    handle_sleep(Some(SleepReason::Command), &mut state);

    retarget_captured_brightness(&Command::SetBrightness(33), &mut state);
    match &state.sleep_state {
        SleepState::Sleeping((_, captured)) => assert_eq!(*captured, 33),
        _ => panic!("the module must still be asleep"),
    }

    // Waking now fades to the new target.
    handle_sleep(None, &mut state);
    assert_eq!(state.brightness, 33);
    assert_eq!(state.grid.0, checkered_grid().0);
}

#[test]
fn awake_commands_do_not_retarget() {
    let mut state = fresh_state();
    retarget_captured_brightness(&Command::SetBrightness(33), &mut state);
    assert!(state.sleep_state.is_awake());
    assert_eq!(state.brightness, 51);
}

#[test]
fn fade_steps_go_down_to_zero_and_up_to_target() {
    assert_eq!(fade_down_steps(13), vec![8, 3, 0]);
    assert_eq!(fade_down_steps(10), vec![5, 0]);
    assert_eq!(fade_down_steps(0), Vec::<u8>::new());
    assert_eq!(fade_up_steps(13), vec![5, 10, 13]);
    assert_eq!(fade_up_steps(4), vec![4]);
    assert_eq!(fade_up_steps(0), Vec::<u8>::new());
}

#[test]
fn game_cadence_speeds_up_with_pong() {
    assert_eq!(game_step_period(&None), 500_000);
    assert_eq!(
        game_step_period(&Some(GameState::Pong(PongState { seed: 0, speed: 0 }))),
        100_000
    );
    assert_eq!(
        game_step_period(&Some(GameState::Pong(PongState { seed: 0, speed: 4 }))),
        80_000
    );
}

#[test]
fn usb_flags_follow_the_device_status() {
    // Before the first configuration nothing may look like sleep.
    assert_eq!(usb_flags_after_poll(true, UsbDeviceStatus::Default, true), (false, false));
    assert_eq!(usb_flags_after_poll(false, UsbDeviceStatus::Addressed, true), (false, false));
    // Configured clears any suspension and remembers the initialization.
    assert_eq!(usb_flags_after_poll(true, UsbDeviceStatus::Configured, false), (true, false));
    // A suspension keeps the initialization flag as it was.
    assert_eq!(usb_flags_after_poll(false, UsbDeviceStatus::Suspend, true), (true, true));
    assert_eq!(usb_flags_after_poll(false, UsbDeviceStatus::Suspend, false), (false, true));
}

#[test]
fn timers_compare_against_their_periods() {
    assert!(render_due(32_000, 0, 31_250));
    assert!(!render_due(31_250, 0, 31_250));
    assert!(sleep_timeout_elapsed(300_000_001, 0));
    assert!(!sleep_timeout_elapsed(300_000_000, 0));
}
