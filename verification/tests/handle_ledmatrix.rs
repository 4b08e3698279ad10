//! The LED matrix handler: state transitions, replies and actions.

use fl16_inputmodules::control::ledmatrix::{
    handle_command_ledmatrix, parse_command_ledmatrix, LedMatrixAction, LedMatrixCommand,
    PwmFreqArg,
};
use fl16_inputmodules::control::{Command, Game, GameControlArg};
use fl16_inputmodules::matrix::{GameState, Grid, LedmatrixState, SleepState, HEIGHT, WIDTH};

fn fresh_state() -> LedmatrixState {
    LedmatrixState {
        grid: Grid::default(),
        col_buffer: Grid::default(),
        auto_scroll: false,
        brightness: 51,
        sleep_state: SleepState::Awake,
        game: None,
        animation_period: 31_250,
        pwm_freq: PwmFreqArg::P29k,
        debug_mode: false,
        upcoming_frames: None,
    }
}

const RELEASE: u16 = 0x0123;

#[test]
fn brightness_set_then_get() {
    let mut state = fresh_state();
    let (reply, action) =
        handle_command_ledmatrix(&Command::SetBrightness(99), &mut state, 0, RELEASE, false);
    assert!(reply.is_none());
    assert!(matches!(action, LedMatrixAction::UpdateBrightness));
    assert_eq!(state.brightness, 99);

    let (reply, action) =
        handle_command_ledmatrix(&Command::GetBrightness, &mut state, 0, RELEASE, false);
    let reply = reply.expect("brightness query must reply");
    assert_eq!(reply.len(), 32);
    assert_eq!(reply[0], 99);
    assert!(matches!(action, LedMatrixAction::NoAction));
}

#[test]
fn version_reply_carries_release_word_and_flag() {
    // End to end: the bare Version frame through parse and handle.
    let buf = vec![0x32, 0xAC, 0x20];
    let command = parse_command_ledmatrix(3, &buf).expect("version frame must parse");
    let mut state = fresh_state();
    let (reply, _) = handle_command_ledmatrix(&command, &mut state, 0, RELEASE, true);
    let reply = reply.expect("version must reply");
    assert_eq!(reply.len(), 32);
    assert_eq!(reply[0], 0x01); // big-endian high byte
    assert_eq!(reply[1], 0x23); // big-endian low byte
    assert_eq!(reply[2], 1); // pre-release flag
    assert!(reply[3..].iter().all(|b| *b == 0));

    let (reply, _) = handle_command_ledmatrix(&command, &mut state, 0, RELEASE, false);
    assert_eq!(reply.expect("version must reply")[2], 0);
}

#[test]
fn sleep_query_reports_flag_and_changes_nothing() {
    // End to end: the bare Sleep frame through parse and handle.
    let buf = vec![0x32, 0xAC, 0x03];
    let command = parse_command_ledmatrix(3, &buf).expect("sleep query must parse");

    let mut awake = fresh_state();
    let (reply, _) = handle_command_ledmatrix(&command, &mut awake, 0, RELEASE, false);
    assert_eq!(reply.expect("sleep query must reply")[0], 0);
    assert!(awake.sleep_state.is_awake());

    let mut asleep = fresh_state();
    asleep.sleep_state = SleepState::Sleeping((Grid::default(), 51));
    let (reply, _) = handle_command_ledmatrix(&command, &mut asleep, 0, RELEASE, false);
    assert_eq!(reply.expect("sleep query must reply")[0], 1);
    assert!(!asleep.sleep_state.is_awake());
}

#[test]
fn animation_period_set_then_get_round_trips() {
    let mut state = fresh_state();
    let (reply, _) =
        handle_command_ledmatrix(&Command::SetAnimationPeriod(0x1234), &mut state, 0, RELEASE, false);
    assert!(reply.is_none());
    assert_eq!(state.animation_period, 0x1234 * 1000);

    let (reply, _) =
        handle_command_ledmatrix(&Command::GetAnimationPeriod, &mut state, 0, RELEASE, false);
    let reply = reply.expect("period query must reply");
    assert_eq!(reply[0], 0x34);
    assert_eq!(reply[1], 0x12);
}

#[test]
fn stage_then_commit_grey_columns() {
    let mut state = fresh_state();
    let column = vec![7u8; HEIGHT];
    let stage = Command::LedMatrixCommand(LedMatrixCommand::StageGreyCol(2, column.clone()));
    let (reply, _) = handle_command_ledmatrix(&stage, &mut state, 0, RELEASE, false);
    assert!(reply.is_none());
    // Staged, not displayed.
    assert_eq!(state.col_buffer.0[2], column);
    assert!(state.grid.0[2].iter().all(|v| *v == 0));

    let (reply, _) =
        handle_command_ledmatrix(&Command::DrawGreyColBuffer, &mut state, 0, RELEASE, false);
    assert!(reply.is_none());
    // Committed: displayed now holds the staged column, staging is zeroed.
    assert_eq!(state.grid.0[2], column);
    for x in 0..WIDTH {
        assert!(state.col_buffer.0[x].iter().all(|v| *v == 0));
    }

    // A further stage leaves the displayed grid untouched.
    let stage2 = Command::LedMatrixCommand(LedMatrixCommand::StageGreyCol(2, vec![1u8; HEIGHT]));
    handle_command_ledmatrix(&stage2, &mut state, 0, RELEASE, false);
    assert_eq!(state.grid.0[2], column);
}

#[test]
fn stage_out_of_range_column_is_ignored() {
    let mut state = fresh_state();
    let stage = Command::LedMatrixCommand(LedMatrixCommand::StageGreyCol(9, vec![7u8; HEIGHT]));
    handle_command_ledmatrix(&stage, &mut state, 0, RELEASE, false);
    for x in 0..WIDTH {
        assert!(state.col_buffer.0[x].iter().all(|v| *v == 0));
    }
}

#[test]
fn draw_expands_bits_lsb_first() {
    let mut state = fresh_state();
    let mut bitmap = vec![0u8; 39];
    bitmap[0] = 0b0000_0101; // stream bits 0 and 2 set
    let draw = Command::LedMatrixCommand(LedMatrixCommand::Draw(bitmap));
    handle_command_ledmatrix(&draw, &mut state, 0, RELEASE, false);
    // Row-major: bit 0 is cell (0, 0), bit 2 is cell (2, 0).
    assert_eq!(state.grid.0[0][0], 0xFF);
    assert_eq!(state.grid.0[1][0], 0);
    assert_eq!(state.grid.0[2][0], 0xFF);
    assert_eq!(state.grid.0[3][0], 0);
}

#[test]
fn percentage_zero_is_dark_and_full_is_lit() {
    let mut state = fresh_state();
    handle_command_ledmatrix(&Command::Percentage(0), &mut state, 0, RELEASE, false);
    for x in 0..WIDTH {
        assert!(state.grid.0[x].iter().all(|v| *v == 0));
    }
    handle_command_ledmatrix(&Command::Percentage(100), &mut state, 0, RELEASE, false);
    for x in 0..WIDTH {
        assert!(state.grid.0[x].iter().all(|v| *v == 0xFF));
    }
}

#[test]
fn games_start_and_exit() {
    let mut state = fresh_state();
    handle_command_ledmatrix(&Command::StartGame(Game::Pong), &mut state, 42, RELEASE, false);
    assert!(matches!(state.game, Some(GameState::Pong(p)) if p.seed == 42 && p.speed == 0));

    // A direction is routed to the game and leaves the core state unchanged.
    handle_command_ledmatrix(
        &Command::GameControl(GameControlArg::Left),
        &mut state,
        0,
        RELEASE,
        false,
    );
    assert!(state.game.is_some());

    handle_command_ledmatrix(
        &Command::GameControl(GameControlArg::Exit),
        &mut state,
        0,
        RELEASE,
        false,
    );
    assert!(state.game.is_none());

    // With no game active, controls are a no-op.
    handle_command_ledmatrix(
        &Command::GameControl(GameControlArg::Exit),
        &mut state,
        0,
        RELEASE,
        false,
    );
    assert!(state.game.is_none());

    // The Tetris selector is recognised but not actionable.
    handle_command_ledmatrix(&Command::StartGame(Game::Tetris), &mut state, 7, RELEASE, false);
    assert!(state.game.is_none());
}

#[test]
fn pwm_freq_set_then_get() {
    let mut state = fresh_state();
    let set = Command::LedMatrixCommand(LedMatrixCommand::SetPwmFreq(PwmFreqArg::P900));
    let (reply, action) = handle_command_ledmatrix(&set, &mut state, 0, RELEASE, false);
    assert!(reply.is_none());
    assert!(matches!(action, LedMatrixAction::UpdatePwmFreq));
    let (reply, _) = handle_command_ledmatrix(&Command::GetPwmFreq, &mut state, 0, RELEASE, false);
    assert_eq!(reply.expect("pwm query must reply")[0], 0x03);
}

#[test]
fn bootloader_and_panic_become_actions() {
    let mut state = fresh_state();
    let (reply, action) =
        handle_command_ledmatrix(&Command::BootloaderReset, &mut state, 0, RELEASE, false);
    assert!(reply.is_none());
    assert!(matches!(action, LedMatrixAction::BootloaderReset));
    let (reply, action) = handle_command_ledmatrix(&Command::Panic, &mut state, 0, RELEASE, false);
    assert!(reply.is_none());
    assert!(matches!(action, LedMatrixAction::Panic));
}

#[test]
fn debug_mode_set_then_get() {
    let mut state = fresh_state();
    handle_command_ledmatrix(&Command::SetDebugMode(true), &mut state, 0, RELEASE, false);
    assert!(state.debug_mode);
    let (reply, _) =
        handle_command_ledmatrix(&Command::GetDebugMode, &mut state, 0, RELEASE, false);
    assert_eq!(reply.expect("debug query must reply")[0], 1);
}
