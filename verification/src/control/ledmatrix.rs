//! The RGB LED matrix module: patterns, drawing, games, animation period,
//! PWM frequency and debug mode.

use crate::control::{
    cmd_view, command_from_u8, game_control_from_u8, game_val_from_u8, gol_param_from_u8,
    handle_generic_command, new_reply, parse_command, pattern_from_u8, reply1, reply2, reply_view,
    spec_arg, spec_command_from_u8, spec_game_control_from_u8, spec_game_val_from_u8,
    spec_gol_param_from_u8, spec_handle_generic, spec_is_frame, spec_parse_with_fallback, spec_u16_le,
    spec_pattern_from_u8, Command, CommandV, CommandVals, ControllableModule, Game,
    GameControlArg, GameVal, GenericAction, PatternVals, MAGIC0, MAGIC1,
};
use crate::matrix::{
    zero_grid, GameOfLifeState, GameState, Grid, LedmatrixState, LedmatrixStateV, PongState,
    SnakeState, HEIGHT,
};
use crate::patterns::{
    cols_grid, double_gradient, double_gradient_row, draw, draw_grey_col, draw_grid,
    display_lotus, display_lotus2, display_panic, gradient, gradient_row, lotus2_row, lotus_col,
    panic_col, percentage, percentage_grid, rows_grid, set_brightness, staged_grid, zigzag,
    zigzag_row, BRIGHTNESS_LEVELS, DRAW_BYTES,
};
use vstd::prelude::*;

verus! {

/// Tag struct for the LED matrix input module.
pub struct LedMatrixTag;

impl ControllableModule for LedMatrixTag {
    open spec fn spec_parse(count: int, buf: Seq<u8>) -> Option<CommandV> {
        spec_parse_ledmatrix(count, buf)
    }

    fn parse_command(count: usize, buf: &[u8]) -> (r: Option<Command>) {
        parse_module_command_ledmatrix(count, buf)
    }
}

/// Parses one frame for the LED matrix, generic fallback included.
pub fn parse_command_ledmatrix(count: usize, buf: &[u8]) -> (r: Option<Command>)
    requires
        count <= buf@.len(),
    ensures
        cmd_view(r) == spec_parse_with_fallback(
            spec_parse_ledmatrix(count as int, buf@),
            count as int,
            buf@,
        ),
        r matches Some(c) ==> crate::control::spec_command_wf(c@),
{
    parse_command::<LedMatrixTag>(count, buf)
}

/// Commands only the LED matrix understands.
pub enum LedMatrixCommand {
    /// Draw black/white on the grid.
    Draw(Vec<u8>),
    /// Stage one column of grey values.
    StageGreyCol(u8, Vec<u8>),
    /// Set the LED controller's PWM frequency.
    SetPwmFreq(PwmFreqArg),
}

/// Mathematical model of `LedMatrixCommand`.
pub enum LedMatrixCommandV {
    Draw(Seq<u8>),
    StageGreyCol(u8, Seq<u8>),
    SetPwmFreq(PwmFreqArg),
}

impl View for LedMatrixCommand {
    type V = LedMatrixCommandV;

    open spec fn view(&self) -> LedMatrixCommandV {
        match self {
            LedMatrixCommand::Draw(vals) => LedMatrixCommandV::Draw(vals@),
            LedMatrixCommand::StageGreyCol(col, vals) => LedMatrixCommandV::StageGreyCol(
                *col,
                vals@,
            ),
            LedMatrixCommand::SetPwmFreq(f) => LedMatrixCommandV::SetPwmFreq(*f),
        }
    }
}

/// The four PWM frequencies the LED controller supports.
#[derive(Copy, Clone, PartialEq, Eq, Structural, Debug)]
pub enum PwmFreqArg {
    /// 29kHz
    P29k,
    /// 3.6kHz
    P3k6,
    /// 1.8kHz
    P1k8,
    /// 900Hz
    P900,
}

/// The PWM frequency a byte stands for, if any.
pub open spec fn spec_pwm_freq_from_u8(v: u8) -> Option<PwmFreqArg> {
    if v == 0x00 {
        Some(PwmFreqArg::P29k)
    } else if v == 0x01 {
        Some(PwmFreqArg::P3k6)
    } else if v == 0x02 {
        Some(PwmFreqArg::P1k8)
    } else if v == 0x03 {
        Some(PwmFreqArg::P900)
    } else {
        None
    }
}

/// The wire value of a PWM frequency.
pub open spec fn spec_pwm_freq_to_u8(f: PwmFreqArg) -> u8 {
    match f {
        PwmFreqArg::P29k => 0x00,
        PwmFreqArg::P3k6 => 0x01,
        PwmFreqArg::P1k8 => 0x02,
        PwmFreqArg::P900 => 0x03,
    }
}

impl PwmFreqArg {
    /// Decodes a PWM frequency byte.
    pub fn from_u8(v: u8) -> (r: Option<PwmFreqArg>)
        ensures
            r == spec_pwm_freq_from_u8(v),
    {
        match v {
            0x00 => Some(PwmFreqArg::P29k),
            0x01 => Some(PwmFreqArg::P3k6),
            0x02 => Some(PwmFreqArg::P1k8),
            0x03 => Some(PwmFreqArg::P900),
            _ => None,
        }
    }

    /// Encodes a PWM frequency as its wire value.
    pub fn to_u8(&self) -> (r: u8)
        ensures
            r == spec_pwm_freq_to_u8(*self),
    {
        match self {
            PwmFreqArg::P29k => 0x00,
            PwmFreqArg::P3k6 => 0x01,
            PwmFreqArg::P1k8 => 0x02,
            PwmFreqArg::P900 => 0x03,
        }
    }
}

/// What the matrix's own parser recognises.
pub open spec fn spec_parse_ledmatrix(count: int, buf: Seq<u8>) -> Option<CommandV> {
    if spec_is_frame(count, buf) {
        match spec_command_from_u8(buf[2]) {
            Some(CommandVals::Brightness) => Some(
                match spec_arg(count, buf) {
                    Some(brightness) => CommandV::SetBrightness(brightness),
                    None => CommandV::GetBrightness,
                },
            ),
            Some(CommandVals::Pattern) => match spec_arg(count, buf) {
                None => None,
                Some(a) => match spec_pattern_from_u8(a) {
                    Some(PatternVals::Percentage) => if count >= 5 {
                        Some(CommandV::Percentage(buf[4]))
                    } else {
                        None
                    },
                    Some(PatternVals::Gradient) => Some(CommandV::Pattern(PatternVals::Gradient)),
                    Some(PatternVals::DoubleGradient) => Some(
                        CommandV::Pattern(PatternVals::DoubleGradient),
                    ),
                    Some(PatternVals::DisplayLotus) => Some(
                        CommandV::Pattern(PatternVals::DisplayLotus),
                    ),
                    Some(PatternVals::ZigZag) => Some(CommandV::Pattern(PatternVals::ZigZag)),
                    Some(PatternVals::FullBrightness) => Some(
                        CommandV::Pattern(PatternVals::FullBrightness),
                    ),
                    Some(PatternVals::DisplayPanic) => Some(
                        CommandV::Pattern(PatternVals::DisplayPanic),
                    ),
                    Some(PatternVals::DisplayLotus2) => Some(
                        CommandV::Pattern(PatternVals::DisplayLotus2),
                    ),
                    None => None,
                },
            },
            Some(CommandVals::Animate) => Some(
                match spec_arg(count, buf) {
                    Some(run_animation) => CommandV::SetAnimate(run_animation == 1),
                    None => CommandV::GetAnimate,
                },
            ),
            Some(CommandVals::Draw) => if count >= 3 + DRAW_BYTES {
                Some(
                    CommandV::LedMatrixCommand(
                        LedMatrixCommandV::Draw(buf.subrange(3, 3 + DRAW_BYTES as int)),
                    ),
                )
            } else {
                None
            },
            Some(CommandVals::StageGreyCol) => if count >= 3 + 1 + HEIGHT {
                Some(
                    CommandV::LedMatrixCommand(
                        LedMatrixCommandV::StageGreyCol(
                            buf[3],
                            buf.subrange(4, 4 + HEIGHT as int),
                        ),
                    ),
                )
            } else {
                None
            },
            Some(CommandVals::DrawGreyColBuffer) => Some(CommandV::DrawGreyColBuffer),
            Some(CommandVals::StartGame) => match spec_arg(count, buf) {
                None => None,
                Some(a) => match spec_game_val_from_u8(a) {
                    Some(GameVal::Snake) => Some(CommandV::StartGame(Game::Snake)),
                    Some(GameVal::Pong) => Some(CommandV::StartGame(Game::Pong)),
                    Some(GameVal::Tetris) => None,
                    Some(GameVal::GameOfLife) => if count >= 5 {
                        match spec_gol_param_from_u8(buf[4]) {
                            Some(param) => Some(CommandV::StartGame(Game::GameOfLife(param))),
                            None => None,
                        }
                    } else {
                        None
                    },
                    None => None,
                },
            },
            Some(CommandVals::GameControl) => match spec_arg(count, buf) {
                None => None,
                Some(a) => match spec_game_control_from_u8(a) {
                    Some(arg) => Some(CommandV::GameControl(arg)),
                    None => None,
                },
            },
            Some(CommandVals::GameStatus) => Some(CommandV::GameStatus),
            Some(CommandVals::AnimationPeriod) => if count == 3 + 2 {
                Some(CommandV::SetAnimationPeriod(spec_u16_le(buf[3], buf[4])))
            } else {
                Some(CommandV::GetAnimationPeriod)
            },
            Some(CommandVals::PwmFreq) => match spec_arg(count, buf) {
                Some(freq) => match spec_pwm_freq_from_u8(freq) {
                    Some(f) => Some(CommandV::LedMatrixCommand(LedMatrixCommandV::SetPwmFreq(f))),
                    None => None,
                },
                None => Some(CommandV::GetPwmFreq),
            },
            Some(CommandVals::DebugMode) => Some(
                match spec_arg(count, buf) {
                    Some(debug_mode) => CommandV::SetDebugMode(debug_mode == 1),
                    None => CommandV::GetDebugMode,
                },
            ),
            _ => None,
        }
    } else {
        None
    }
}

/// The matrix's own parser.
pub fn parse_module_command_ledmatrix(count: usize, buf: &[u8]) -> (r: Option<Command>)
    requires
        count <= buf@.len(),
    ensures
        cmd_view(r) == spec_parse_ledmatrix(count as int, buf@),
        r matches Some(c) ==> crate::control::spec_command_wf(c@),
{
    if count >= 3 && buf[0] == MAGIC0 && buf[1] == MAGIC1 {
        let command = buf[2];
        let arg = if count <= 3 {
            None
        } else {
            Some(buf[3])
        };
        match command_from_u8(command) {
            Some(CommandVals::Brightness) => Some(
                if let Some(brightness) = arg {
                    Command::SetBrightness(brightness)
                } else {
                    Command::GetBrightness
                },
            ),
            Some(CommandVals::Pattern) => match arg {
                None => None,
                Some(a) => match pattern_from_u8(a) {
                    Some(PatternVals::Percentage) => {
                        if count >= 5 {
                            Some(Command::Percentage(buf[4]))
                        } else {
                            None
                        }
                    },
                    Some(PatternVals::Gradient) => Some(Command::Pattern(PatternVals::Gradient)),
                    Some(PatternVals::DoubleGradient) => Some(
                        Command::Pattern(PatternVals::DoubleGradient),
                    ),
                    Some(PatternVals::DisplayLotus) => Some(
                        Command::Pattern(PatternVals::DisplayLotus),
                    ),
                    Some(PatternVals::ZigZag) => Some(Command::Pattern(PatternVals::ZigZag)),
                    Some(PatternVals::FullBrightness) => Some(
                        Command::Pattern(PatternVals::FullBrightness),
                    ),
                    Some(PatternVals::DisplayPanic) => Some(
                        Command::Pattern(PatternVals::DisplayPanic),
                    ),
                    Some(PatternVals::DisplayLotus2) => Some(
                        Command::Pattern(PatternVals::DisplayLotus2),
                    ),
                    None => None,
                },
            },
            Some(CommandVals::Animate) => Some(
                if let Some(run_animation) = arg {
                    Command::SetAnimate(run_animation == 1)
                } else {
                    Command::GetAnimate
                },
            ),
            Some(CommandVals::Draw) => {
                if count >= 3 + DRAW_BYTES {
                    let bytes = crate::control::bytes_of(buf, 3, 3 + DRAW_BYTES);
                    Some(Command::LedMatrixCommand(LedMatrixCommand::Draw(bytes)))
                } else {
                    None
                }
            },
            Some(CommandVals::StageGreyCol) => {
                if count >= 3 + 1 + HEIGHT {
                    let bytes = crate::control::bytes_of(buf, 4, 4 + HEIGHT);
                    Some(
                        Command::LedMatrixCommand(LedMatrixCommand::StageGreyCol(buf[3], bytes)),
                    )
                } else {
                    None
                }
            },
            Some(CommandVals::DrawGreyColBuffer) => Some(Command::DrawGreyColBuffer),
            Some(CommandVals::StartGame) => match arg {
                None => None,
                Some(a) => match game_val_from_u8(a) {
                    Some(GameVal::Snake) => Some(Command::StartGame(Game::Snake)),
                    Some(GameVal::Pong) => Some(Command::StartGame(Game::Pong)),
                    Some(GameVal::Tetris) => None,
                    Some(GameVal::GameOfLife) => {
                        if count >= 5 {
                            match gol_param_from_u8(buf[4]) {
                                Some(param) => Some(Command::StartGame(Game::GameOfLife(param))),
                                None => None,
                            }
                        } else {
                            None
                        }
                    },
                    None => None,
                },
            },
            Some(CommandVals::GameControl) => match arg {
                None => None,
                Some(a) => match game_control_from_u8(a) {
                    Some(control) => Some(Command::GameControl(control)),
                    None => None,
                },
            },
            Some(CommandVals::GameStatus) => Some(Command::GameStatus),
            Some(CommandVals::AnimationPeriod) => {
                if count == 3 + 2 {
                    let period: u16 = (buf[3] as u16) + 256 * (buf[4] as u16);
                    Some(Command::SetAnimationPeriod(period))
                } else {
                    Some(Command::GetAnimationPeriod)
                }
            },
            Some(CommandVals::PwmFreq) => {
                if let Some(freq) = arg {
                    match PwmFreqArg::from_u8(freq) {
                        Some(f) => Some(Command::LedMatrixCommand(LedMatrixCommand::SetPwmFreq(f))),
                        None => None,
                    }
                } else {
                    Some(Command::GetPwmFreq)
                }
            },
            Some(CommandVals::DebugMode) => Some(
                if let Some(debug_mode) = arg {
                    Command::SetDebugMode(debug_mode == 1)
                } else {
                    Command::GetDebugMode
                },
            ),
            _ => None,
        }
    } else {
        None
    }
}

/// What the caller must do to the hardware after a matrix command.
#[derive(Copy, Clone, PartialEq, Eq, Structural, Debug)]
pub enum LedMatrixAction {
    /// Nothing beyond the state change already made; the caller re-renders
    /// the grid after every handled command anyway.
    NoAction,
    /// Write the state's brightness to the LED controller's scaling.
    UpdateBrightness,
    /// Write the state's PWM frequency to the LED controller.
    UpdatePwmFreq,
    /// Jump into the mask-ROM update mode.
    BootloaderReset,
    /// Raise the deliberate fatal fault.
    Panic,
}

/// Lifts a generic action into the matrix's action set.
pub open spec fn spec_lift_generic_ledmatrix(a: GenericAction) -> LedMatrixAction {
    match a {
        GenericAction::NoAction => LedMatrixAction::NoAction,
        GenericAction::BootloaderReset => LedMatrixAction::BootloaderReset,
        GenericAction::Panic => LedMatrixAction::Panic,
    }
}

/// The game state after a StartGame command: the selected game replaces any
/// active one wholesale, seeded from `random`; the Tetris selector is
/// recognised but not actionable.
pub open spec fn spec_started_game(
    game: Game,
    current: Option<GameState>,
    random: u8,
) -> Option<GameState> {
    match game {
        Game::Snake => Some(GameState::Snake(SnakeState { seed: random })),
        Game::Pong => Some(GameState::Pong(PongState { seed: random, speed: 0 })),
        Game::Tetris => current,
        Game::GameOfLife(param) => Some(
            GameState::GameOfLife(GameOfLifeState { param, seed: random }),
        ),
    }
}

/// The game state after a control command: Exit clears the active game, any
/// other control is routed to the active game's own handler (a collaborator)
/// and leaves the core state unchanged; with no game active it is a no-op.
pub open spec fn spec_game_after_control(
    current: Option<GameState>,
    arg: GameControlArg,
) -> Option<GameState> {
    match current {
        Some(_) => if arg is Exit {
            None
        } else {
            current
        },
        None => None,
    }
}

/// The matrix handler as a state-transition function: next state, optional
/// 32-byte reply, hardware action.
pub open spec fn spec_handle_ledmatrix(
    command: CommandV,
    s: LedmatrixStateV,
    random: u8,
    release: u16,
    pre_release: bool,
) -> (LedmatrixStateV, Option<Seq<u8>>, LedMatrixAction) {
    match command {
        CommandV::GetBrightness => (s, Some(reply1(s.brightness)), LedMatrixAction::NoAction),
        CommandV::SetBrightness(br) => (
            (LedmatrixStateV { brightness: br, ..s }),
            None,
            LedMatrixAction::UpdateBrightness,
        ),
        CommandV::Percentage(p) => (
            (LedmatrixStateV { grid: percentage_grid(p as int), ..s }),
            None,
            LedMatrixAction::NoAction,
        ),
        CommandV::Pattern(pattern) => match pattern {
            PatternVals::Percentage => (s, None, LedMatrixAction::NoAction),
            PatternVals::Gradient => (
                (LedmatrixStateV {
                    grid: rows_grid(Seq::new(HEIGHT as nat, |y: int| gradient_row(y))),
                    ..s
                }),
                None,
                LedMatrixAction::NoAction,
            ),
            PatternVals::DoubleGradient => (
                (LedmatrixStateV {
                    grid: rows_grid(Seq::new(HEIGHT as nat, |y: int| double_gradient_row(y))),
                    ..s
                }),
                None,
                LedMatrixAction::NoAction,
            ),
            PatternVals::DisplayLotus => (
                (LedmatrixStateV {
                    grid: cols_grid(Seq::new(crate::matrix::WIDTH as nat, |x: int| lotus_col(x))),
                    ..s
                }),
                None,
                LedMatrixAction::NoAction,
            ),
            PatternVals::ZigZag => (
                (LedmatrixStateV {
                    grid: rows_grid(Seq::new(HEIGHT as nat, |y: int| zigzag_row(y))),
                    ..s
                }),
                None,
                LedMatrixAction::NoAction,
            ),
            PatternVals::FullBrightness => (
                (LedmatrixStateV {
                    grid: percentage_grid(100),
                    brightness: BRIGHTNESS_LEVELS,
                    ..s
                }),
                None,
                LedMatrixAction::UpdateBrightness,
            ),
            PatternVals::DisplayPanic => (
                (LedmatrixStateV {
                    grid: cols_grid(Seq::new(crate::matrix::WIDTH as nat, |x: int| panic_col(x))),
                    ..s
                }),
                None,
                LedMatrixAction::NoAction,
            ),
            PatternVals::DisplayLotus2 => (
                (LedmatrixStateV {
                    grid: rows_grid(Seq::new(HEIGHT as nat, |y: int| lotus2_row(y))),
                    ..s
                }),
                None,
                LedMatrixAction::NoAction,
            ),
        },
        CommandV::SetAnimate(a) => (
            (LedmatrixStateV { auto_scroll: a, ..s }),
            None,
            LedMatrixAction::NoAction,
        ),
        CommandV::GetAnimate => (
            s,
            Some(
                reply1(
                    if s.auto_scroll {
                        1u8
                    } else {
                        0u8
                    },
                ),
            ),
            LedMatrixAction::NoAction,
        ),
        CommandV::LedMatrixCommand(LedMatrixCommandV::Draw(vals)) => (
            (LedmatrixStateV { grid: draw_grid(vals), ..s }),
            None,
            LedMatrixAction::NoAction,
        ),
        CommandV::LedMatrixCommand(LedMatrixCommandV::StageGreyCol(col, vals)) => (
            (LedmatrixStateV { col_buffer: staged_grid(s.col_buffer, col, vals), ..s }),
            None,
            LedMatrixAction::NoAction,
        ),
        CommandV::DrawGreyColBuffer => (
            (LedmatrixStateV { grid: s.col_buffer, col_buffer: zero_grid(), ..s }),
            None,
            LedMatrixAction::NoAction,
        ),
        CommandV::IsSleeping => (
            s,
            Some(
                reply1(
                    if s.sleep_state is Awake {
                        0u8
                    } else {
                        1u8
                    },
                ),
            ),
            LedMatrixAction::NoAction,
        ),
        CommandV::StartGame(game) => (
            (LedmatrixStateV { game: spec_started_game(game, s.game, random), ..s }),
            None,
            LedMatrixAction::NoAction,
        ),
        CommandV::GameControl(arg) => (
            (LedmatrixStateV { game: spec_game_after_control(s.game, arg), ..s }),
            None,
            LedMatrixAction::NoAction,
        ),
        CommandV::GameStatus => (s, None, LedMatrixAction::NoAction),
        CommandV::SetAnimationPeriod(period) => (
            (LedmatrixStateV { animation_period: (period * 1000) as u64, ..s }),
            None,
            LedMatrixAction::NoAction,
        ),
        CommandV::GetAnimationPeriod => (
            s,
            Some(
                reply2(
                    ((s.animation_period / 1000) % 256) as u8,
                    (((s.animation_period / 1000) / 256) % 256) as u8,
                ),
            ),
            LedMatrixAction::NoAction,
        ),
        CommandV::LedMatrixCommand(LedMatrixCommandV::SetPwmFreq(f)) => (
            (LedmatrixStateV { pwm_freq: f, ..s }),
            None,
            LedMatrixAction::UpdatePwmFreq,
        ),
        CommandV::GetPwmFreq => (
            s,
            Some(reply1(spec_pwm_freq_to_u8(s.pwm_freq))),
            LedMatrixAction::NoAction,
        ),
        CommandV::SetDebugMode(d) => (
            (LedmatrixStateV { debug_mode: d, ..s }),
            None,
            LedMatrixAction::NoAction,
        ),
        CommandV::GetDebugMode => (
            s,
            Some(
                reply1(
                    if s.debug_mode {
                        1u8
                    } else {
                        0u8
                    },
                ),
            ),
            LedMatrixAction::NoAction,
        ),
        _ => {
            let (reply, action) = spec_handle_generic(command, release, pre_release);
            (s, reply, spec_lift_generic_ledmatrix(action))
        },
    }
}

/// Handles one command for the LED matrix. `random` seeds a started game;
/// the caller performs the returned action on the LED controller and
/// re-renders the grid afterwards.
pub fn handle_command_ledmatrix(
    command: &Command,
    state: &mut LedmatrixState,
    random: u8,
    release: u16,
    pre_release: bool,
) -> (r: (Option<Vec<u8>>, LedMatrixAction))
    requires
        old(state).wf(),
        crate::control::spec_command_wf(command@),
    ensures
        final(state)@ == spec_handle_ledmatrix(
            command@,
            old(state)@,
            random,
            release,
            pre_release,
        ).0,
        reply_view(r.0) == spec_handle_ledmatrix(
            command@,
            old(state)@,
            random,
            release,
            pre_release,
        ).1,
        r.1 == spec_handle_ledmatrix(command@, old(state)@, random, release, pre_release).2,
        final(state).wf(),
{
    match command {
        Command::GetBrightness => {
            let mut response = new_reply();
            response.set(0, state.brightness);
            (Some(response), LedMatrixAction::NoAction)
        },
        Command::SetBrightness(br) => {
            set_brightness(state, *br);
            (None, LedMatrixAction::UpdateBrightness)
        },
        Command::Percentage(p) => {
            state.grid = percentage(*p as u16);
            (None, LedMatrixAction::NoAction)
        },
        Command::Pattern(pattern) => {
            match pattern {
                PatternVals::Gradient => {
                    state.grid = gradient();
                },
                PatternVals::DoubleGradient => {
                    state.grid = double_gradient();
                },
                PatternVals::DisplayLotus => {
                    state.grid = display_lotus();
                },
                PatternVals::ZigZag => {
                    state.grid = zigzag();
                },
                PatternVals::FullBrightness => {
                    state.grid = percentage(100);
                    set_brightness(state, BRIGHTNESS_LEVELS);
                },
                PatternVals::DisplayPanic => {
                    state.grid = display_panic();
                },
                PatternVals::DisplayLotus2 => {
                    state.grid = display_lotus2();
                },
                PatternVals::Percentage => {},
            }
            let action = if let PatternVals::FullBrightness = pattern {
                LedMatrixAction::UpdateBrightness
            } else {
                LedMatrixAction::NoAction
            };
            (None, action)
        },
        Command::SetAnimate(a) => {
            state.auto_scroll = *a;
            (None, LedMatrixAction::NoAction)
        },
        Command::GetAnimate => {
            let mut response = new_reply();
            response.set(
                0,
                if state.auto_scroll {
                    1
                } else {
                    0
                },
            );
            (Some(response), LedMatrixAction::NoAction)
        },
        Command::LedMatrixCommand(LedMatrixCommand::Draw(vals)) => {
            state.grid = draw(vals);
            (None, LedMatrixAction::NoAction)
        },
        Command::LedMatrixCommand(LedMatrixCommand::StageGreyCol(col, vals)) => {
            draw_grey_col(&mut state.col_buffer, *col, vals);
            (None, LedMatrixAction::NoAction)
        },
        Command::DrawGreyColBuffer => {
            // Copy the staging buffer to the displayed grid, then zero the
            // staging buffer.
            state.grid = state.col_buffer.clone();
            state.col_buffer = Grid::default();
            (None, LedMatrixAction::NoAction)
        },
        Command::IsSleeping => {
            let mut response = new_reply();
            response.set(
                0,
                if state.sleep_state.is_awake() {
                    0
                } else {
                    1
                },
            );
            (Some(response), LedMatrixAction::NoAction)
        },
        Command::StartGame(game) => {
            match game {
                Game::Snake => {
                    state.game = Some(GameState::Snake(SnakeState { seed: random }));
                },
                Game::Pong => {
                    state.game = Some(GameState::Pong(PongState { seed: random, speed: 0 }));
                },
                Game::Tetris => {},
                Game::GameOfLife(param) => {
                    state.game = Some(
                        GameState::GameOfLife(GameOfLifeState { param: *param, seed: random }),
                    );
                },
            }
            (None, LedMatrixAction::NoAction)
        },
        Command::GameControl(arg) => {
            if state.game.is_some() {
                if let GameControlArg::Exit = arg {
                    state.game = None;
                }
            }
            (None, LedMatrixAction::NoAction)
        },
        Command::GameStatus => (None, LedMatrixAction::NoAction),
        Command::SetAnimationPeriod(period) => {
            state.animation_period = (*period as u64) * 1000;
            (None, LedMatrixAction::NoAction)
        },
        Command::GetAnimationPeriod => {
            let period_ms: u64 = state.animation_period / 1000;
            let mut response = new_reply();
            response.set(0, (period_ms % 256) as u8);
            response.set(1, ((period_ms / 256) % 256) as u8);
            (Some(response), LedMatrixAction::NoAction)
        },
        Command::LedMatrixCommand(LedMatrixCommand::SetPwmFreq(f)) => {
            state.pwm_freq = *f;
            (None, LedMatrixAction::UpdatePwmFreq)
        },
        Command::GetPwmFreq => {
            let mut response = new_reply();
            response.set(0, state.pwm_freq.to_u8());
            (Some(response), LedMatrixAction::NoAction)
        },
        Command::SetDebugMode(d) => {
            state.debug_mode = *d;
            (None, LedMatrixAction::NoAction)
        },
        Command::GetDebugMode => {
            let mut response = new_reply();
            response.set(
                0,
                if state.debug_mode {
                    1
                } else {
                    0
                },
            );
            (Some(response), LedMatrixAction::NoAction)
        },
        _ => {
            let (reply, action) = handle_generic_command(command, release, pre_release);
            let lifted = match action {
                GenericAction::NoAction => LedMatrixAction::NoAction,
                GenericAction::BootloaderReset => LedMatrixAction::BootloaderReset,
                GenericAction::Panic => LedMatrixAction::Panic,
            };
            (reply, lifted)
        },
    }
}

/// Setting the animation period and then reading it returns the same
/// millisecond value: the period is stored internally in microsecond ticks,
/// a thousand per externally visible millisecond, and the set does not
/// otherwise change the state.
pub proof fn lemma_animation_period_roundtrip(
    s: LedmatrixStateV,
    period_ms: u16,
    random1: u8,
    random2: u8,
    release: u16,
    pre_release: bool,
)
    ensures
        ({
            let (s1, r1, a1) = spec_handle_ledmatrix(
                CommandV::SetAnimationPeriod(period_ms),
                s,
                random1,
                release,
                pre_release,
            );
            let (s2, r2, a2) = spec_handle_ledmatrix(
                CommandV::GetAnimationPeriod,
                s1,
                random2,
                release,
                pre_release,
            );
            &&& s1.animation_period == period_ms * 1000
            &&& s1 == (LedmatrixStateV { animation_period: (period_ms * 1000) as u64, ..s })
            &&& s2 == s1
            &&& r2 == Some(reply2((period_ms % 256) as u8, ((period_ms / 256) % 256) as u8))
        }),
{
    let p = period_ms as int;
    assert(p * 1000 / 1000 == p) by (nonlinear_arith);
    assert((p * 1000) as u64 as int == p * 1000) by (nonlinear_arith)
        requires 0 <= p <= 65535;
}

/// Committing the staging buffer copies it into the displayed grid and
/// resets the staging buffer to all-zero; staging a further column changes
/// only the staging buffer, so the displayed grid is unaffected until the
/// next commit.
pub proof fn lemma_grey_col_commit(
    s: LedmatrixStateV,
    col: u8,
    vals: Seq<u8>,
    random1: u8,
    random2: u8,
    release: u16,
    pre_release: bool,
)
    ensures
        ({
            let (s1, r1, a1) = spec_handle_ledmatrix(
                CommandV::DrawGreyColBuffer,
                s,
                random1,
                release,
                pre_release,
            );
            &&& s1.grid == s.col_buffer
            &&& s1.col_buffer == zero_grid()
        }),
        ({
            let (s2, r2, a2) = spec_handle_ledmatrix(
                CommandV::LedMatrixCommand(LedMatrixCommandV::StageGreyCol(col, vals)),
                s,
                random2,
                release,
                pre_release,
            );
            &&& s2.grid == s.grid
            &&& s2.col_buffer == staged_grid(s.col_buffer, col, vals)
        }),
{
}

} // verus!
