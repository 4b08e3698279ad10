//! Command protocol: the command model shared by every module, the generic
//! parser for the commands every module understands, and the generic handler.
//!
//! A frame is `[0x32][0xAC][opcode][arg?][payload...]`. Each module tries its
//! own parser first and falls back to the generic one; frames neither
//! recognises are silently dropped.

pub mod b1display;
pub mod c1minimal;
pub mod ledmatrix;

use crate::control::b1display::{B1DisplayCommand, B1DisplayCommandV};
use crate::control::c1minimal::{C1MinimalCommand, C1MinimalCommandV};
use crate::control::ledmatrix::{LedMatrixCommand, LedMatrixCommandV};
use vstd::prelude::*;

verus! {

/// First magic byte of every frame.
pub const MAGIC0: u8 = 0x32;

/// Second magic byte of every frame.
pub const MAGIC1: u8 = 0xAC;

/// All available opcodes.
#[derive(Copy, Clone, PartialEq, Eq, Structural, Debug)]
pub enum CommandVals {
    Brightness,
    Pattern,
    BootloaderReset,
    Sleep,
    Animate,
    Panic,
    Draw,
    StageGreyCol,
    DrawGreyColBuffer,
    SetText,
    StartGame,
    GameControl,
    GameStatus,
    SetColor,
    DisplayOn,
    InvertScreen,
    SetPixelColumn,
    FlushFramebuffer,
    ClearRam,
    ScreenSaver,
    SetFps,
    SetPowerMode,
    AnimationPeriod,
    PwmFreq,
    DebugMode,
    Version,
}

/// The opcode each command value stands for on the wire.
pub open spec fn spec_command_to_u8(v: CommandVals) -> u8 {
    match v {
        CommandVals::Brightness => 0x00,
        CommandVals::Pattern => 0x01,
        CommandVals::BootloaderReset => 0x02,
        CommandVals::Sleep => 0x03,
        CommandVals::Animate => 0x04,
        CommandVals::Panic => 0x05,
        CommandVals::Draw => 0x06,
        CommandVals::StageGreyCol => 0x07,
        CommandVals::DrawGreyColBuffer => 0x08,
        CommandVals::SetText => 0x09,
        CommandVals::StartGame => 0x10,
        CommandVals::GameControl => 0x11,
        CommandVals::GameStatus => 0x12,
        CommandVals::SetColor => 0x13,
        CommandVals::DisplayOn => 0x14,
        CommandVals::InvertScreen => 0x15,
        CommandVals::SetPixelColumn => 0x16,
        CommandVals::FlushFramebuffer => 0x17,
        CommandVals::ClearRam => 0x18,
        CommandVals::ScreenSaver => 0x19,
        CommandVals::SetFps => 0x1A,
        CommandVals::SetPowerMode => 0x1B,
        CommandVals::AnimationPeriod => 0x1C,
        CommandVals::PwmFreq => 0x1E,
        CommandVals::DebugMode => 0x1F,
        CommandVals::Version => 0x20,
    }
}

/// The command value an opcode byte stands for, if any.
pub open spec fn spec_command_from_u8(v: u8) -> Option<CommandVals> {
    if v == 0x00 {
        Some(CommandVals::Brightness)
    } else if v == 0x01 {
        Some(CommandVals::Pattern)
    } else if v == 0x02 {
        Some(CommandVals::BootloaderReset)
    } else if v == 0x03 {
        Some(CommandVals::Sleep)
    } else if v == 0x04 {
        Some(CommandVals::Animate)
    } else if v == 0x05 {
        Some(CommandVals::Panic)
    } else if v == 0x06 {
        Some(CommandVals::Draw)
    } else if v == 0x07 {
        Some(CommandVals::StageGreyCol)
    } else if v == 0x08 {
        Some(CommandVals::DrawGreyColBuffer)
    } else if v == 0x09 {
        Some(CommandVals::SetText)
    } else if v == 0x10 {
        Some(CommandVals::StartGame)
    } else if v == 0x11 {
        Some(CommandVals::GameControl)
    } else if v == 0x12 {
        Some(CommandVals::GameStatus)
    } else if v == 0x13 {
        Some(CommandVals::SetColor)
    } else if v == 0x14 {
        Some(CommandVals::DisplayOn)
    } else if v == 0x15 {
        Some(CommandVals::InvertScreen)
    } else if v == 0x16 {
        Some(CommandVals::SetPixelColumn)
    } else if v == 0x17 {
        Some(CommandVals::FlushFramebuffer)
    } else if v == 0x18 {
        Some(CommandVals::ClearRam)
    } else if v == 0x19 {
        Some(CommandVals::ScreenSaver)
    } else if v == 0x1A {
        Some(CommandVals::SetFps)
    } else if v == 0x1B {
        Some(CommandVals::SetPowerMode)
    } else if v == 0x1C {
        Some(CommandVals::AnimationPeriod)
    } else if v == 0x1E {
        Some(CommandVals::PwmFreq)
    } else if v == 0x1F {
        Some(CommandVals::DebugMode)
    } else if v == 0x20 {
        Some(CommandVals::Version)
    } else {
        None
    }
}

/// Decodes an opcode byte.
pub fn command_from_u8(v: u8) -> (r: Option<CommandVals>)
    ensures
        r == spec_command_from_u8(v),
{
    match v {
        0x00 => Some(CommandVals::Brightness),
        0x01 => Some(CommandVals::Pattern),
        0x02 => Some(CommandVals::BootloaderReset),
        0x03 => Some(CommandVals::Sleep),
        0x04 => Some(CommandVals::Animate),
        0x05 => Some(CommandVals::Panic),
        0x06 => Some(CommandVals::Draw),
        0x07 => Some(CommandVals::StageGreyCol),
        0x08 => Some(CommandVals::DrawGreyColBuffer),
        0x09 => Some(CommandVals::SetText),
        0x10 => Some(CommandVals::StartGame),
        0x11 => Some(CommandVals::GameControl),
        0x12 => Some(CommandVals::GameStatus),
        0x13 => Some(CommandVals::SetColor),
        0x14 => Some(CommandVals::DisplayOn),
        0x15 => Some(CommandVals::InvertScreen),
        0x16 => Some(CommandVals::SetPixelColumn),
        0x17 => Some(CommandVals::FlushFramebuffer),
        0x18 => Some(CommandVals::ClearRam),
        0x19 => Some(CommandVals::ScreenSaver),
        0x1A => Some(CommandVals::SetFps),
        0x1B => Some(CommandVals::SetPowerMode),
        0x1C => Some(CommandVals::AnimationPeriod),
        0x1E => Some(CommandVals::PwmFreq),
        0x1F => Some(CommandVals::DebugMode),
        0x20 => Some(CommandVals::Version),
        _ => None,
    }
}

/// Pre-programmed patterns of the LED matrix.
#[derive(Copy, Clone, PartialEq, Eq, Structural, Debug)]
pub enum PatternVals {
    Percentage,
    Gradient,
    DoubleGradient,
    DisplayLotus,
    ZigZag,
    FullBrightness,
    DisplayPanic,
    DisplayLotus2,
}

/// The pattern selector a byte stands for, if any.
pub open spec fn spec_pattern_from_u8(v: u8) -> Option<PatternVals> {
    if v == 0x00 {
        Some(PatternVals::Percentage)
    } else if v == 0x01 {
        Some(PatternVals::Gradient)
    } else if v == 0x02 {
        Some(PatternVals::DoubleGradient)
    } else if v == 0x03 {
        Some(PatternVals::DisplayLotus)
    } else if v == 0x04 {
        Some(PatternVals::ZigZag)
    } else if v == 0x05 {
        Some(PatternVals::FullBrightness)
    } else if v == 0x06 {
        Some(PatternVals::DisplayPanic)
    } else if v == 0x07 {
        Some(PatternVals::DisplayLotus2)
    } else {
        None
    }
}

/// Decodes a pattern selector byte.
pub fn pattern_from_u8(v: u8) -> (r: Option<PatternVals>)
    ensures
        r == spec_pattern_from_u8(v),
{
    match v {
        0x00 => Some(PatternVals::Percentage),
        0x01 => Some(PatternVals::Gradient),
        0x02 => Some(PatternVals::DoubleGradient),
        0x03 => Some(PatternVals::DisplayLotus),
        0x04 => Some(PatternVals::ZigZag),
        0x05 => Some(PatternVals::FullBrightness),
        0x06 => Some(PatternVals::DisplayPanic),
        0x07 => Some(PatternVals::DisplayLotus2),
        _ => None,
    }
}

/// The games a StartGame frame can select.
#[derive(Copy, Clone, PartialEq, Eq, Structural, Debug)]
pub enum Game {
    Snake,
    Pong,
    Tetris,
    GameOfLife(GameOfLifeStartParam),
}

/// Wire selector of a game.
#[derive(Copy, Clone, PartialEq, Eq, Structural, Debug)]
pub enum GameVal {
    Snake,
    Pong,
    Tetris,
    GameOfLife,
}

/// The game selector a byte stands for, if any.
pub open spec fn spec_game_val_from_u8(v: u8) -> Option<GameVal> {
    if v == 0 {
        Some(GameVal::Snake)
    } else if v == 1 {
        Some(GameVal::Pong)
    } else if v == 2 {
        Some(GameVal::Tetris)
    } else if v == 3 {
        Some(GameVal::GameOfLife)
    } else {
        None
    }
}

/// Decodes a game selector byte.
pub fn game_val_from_u8(v: u8) -> (r: Option<GameVal>)
    ensures
        r == spec_game_val_from_u8(v),
{
    match v {
        0 => Some(GameVal::Snake),
        1 => Some(GameVal::Pong),
        2 => Some(GameVal::Tetris),
        3 => Some(GameVal::GameOfLife),
        _ => None,
    }
}

/// Directional and session controls of the games.
#[derive(Copy, Clone, PartialEq, Eq, Structural, Debug)]
pub enum GameControlArg {
    Up,
    Down,
    Left,
    Right,
    Exit,
    SecondLeft,
    SecondRight,
}

/// The control argument a byte stands for, if any.
pub open spec fn spec_game_control_from_u8(v: u8) -> Option<GameControlArg> {
    if v == 0 {
        Some(GameControlArg::Up)
    } else if v == 1 {
        Some(GameControlArg::Down)
    } else if v == 2 {
        Some(GameControlArg::Left)
    } else if v == 3 {
        Some(GameControlArg::Right)
    } else if v == 4 {
        Some(GameControlArg::Exit)
    } else if v == 5 {
        Some(GameControlArg::SecondLeft)
    } else if v == 6 {
        Some(GameControlArg::SecondRight)
    } else {
        None
    }
}

/// Decodes a game control byte.
pub fn game_control_from_u8(v: u8) -> (r: Option<GameControlArg>)
    ensures
        r == spec_game_control_from_u8(v),
{
    match v {
        0 => Some(GameControlArg::Up),
        1 => Some(GameControlArg::Down),
        2 => Some(GameControlArg::Left),
        3 => Some(GameControlArg::Right),
        4 => Some(GameControlArg::Exit),
        5 => Some(GameControlArg::SecondLeft),
        6 => Some(GameControlArg::SecondRight),
        _ => None,
    }
}

/// Starting boards of the Game of Life.
#[derive(Copy, Clone, PartialEq, Eq, Structural, Debug)]
pub enum GameOfLifeStartParam {
    CurrentMatrix,
    Pattern1,
    Blinker,
    Toad,
    Beacon,
    Glider,
    BeaconToadBlinker,
}

/// The starting-board parameter a byte stands for, if any.
pub open spec fn spec_gol_param_from_u8(v: u8) -> Option<GameOfLifeStartParam> {
    if v == 0x00 {
        Some(GameOfLifeStartParam::CurrentMatrix)
    } else if v == 0x01 {
        Some(GameOfLifeStartParam::Pattern1)
    } else if v == 0x02 {
        Some(GameOfLifeStartParam::Blinker)
    } else if v == 0x03 {
        Some(GameOfLifeStartParam::Toad)
    } else if v == 0x04 {
        Some(GameOfLifeStartParam::Beacon)
    } else if v == 0x05 {
        Some(GameOfLifeStartParam::Glider)
    } else if v == 0x06 {
        Some(GameOfLifeStartParam::BeaconToadBlinker)
    } else {
        None
    }
}

/// Decodes a Game of Life starting-board byte.
pub fn gol_param_from_u8(v: u8) -> (r: Option<GameOfLifeStartParam>)
    ensures
        r == spec_gol_param_from_u8(v),
{
    match v {
        0x00 => Some(GameOfLifeStartParam::CurrentMatrix),
        0x01 => Some(GameOfLifeStartParam::Pattern1),
        0x02 => Some(GameOfLifeStartParam::Blinker),
        0x03 => Some(GameOfLifeStartParam::Toad),
        0x04 => Some(GameOfLifeStartParam::Beacon),
        0x05 => Some(GameOfLifeStartParam::Glider),
        0x06 => Some(GameOfLifeStartParam::BeaconToadBlinker),
        _ => None,
    }
}

/// Power modes of the bistable display.
#[derive(Copy, Clone, PartialEq, Eq, Structural, Debug)]
pub enum DisplayMode {
    /// Low Power Mode
    Lpm,
    /// High Power Mode
    Hpm,
}

/// One recognised command. Exactly one is produced per valid frame; invalid
/// or unrecognised frames produce none.
pub enum Command {
    /// Get current brightness scaling.
    GetBrightness,
    /// Set brightness scaling.
    SetBrightness(u8),
    /// Display a pre-programmed pattern.
    Pattern(PatternVals),
    /// Reset into the bootloader.
    BootloaderReset,
    /// Light up a percentage of the screen.
    Percentage(u8),
    /// Go to sleep or wake up.
    Sleep(bool),
    IsSleeping,
    /// Start/stop the vertical scrolling animation.
    SetAnimate(bool),
    GetAnimate,
    /// Deliberate fault, to exercise recovery from the host side.
    Panic,
    DrawGreyColBuffer,
    StartGame(Game),
    GameControl(GameControlArg),
    GameStatus,
    Version,
    GetColor,
    DisplayOn(bool),
    GetDisplayOn,
    InvertScreen(bool),
    GetInvertScreen,
    SetPixelColumn(usize, Vec<u8>),
    FlushFramebuffer,
    ClearRam,
    ScreenSaver(bool),
    GetScreenSaver,
    SetFps(u8),
    GetFps,
    SetPowerMode(u8),
    GetPowerMode,
    SetAnimationPeriod(u16),
    GetAnimationPeriod,
    GetPwmFreq,
    SetDebugMode(bool),
    GetDebugMode,
    LedMatrixCommand(LedMatrixCommand),
    B1DisplayCommand(B1DisplayCommand),
    C1MinimalCommand(C1MinimalCommand),
}

/// Mathematical model of `Command`: byte payloads become sequences.
pub enum CommandV {
    GetBrightness,
    SetBrightness(u8),
    Pattern(PatternVals),
    BootloaderReset,
    Percentage(u8),
    Sleep(bool),
    IsSleeping,
    SetAnimate(bool),
    GetAnimate,
    Panic,
    DrawGreyColBuffer,
    StartGame(Game),
    GameControl(GameControlArg),
    GameStatus,
    Version,
    GetColor,
    DisplayOn(bool),
    GetDisplayOn,
    InvertScreen(bool),
    GetInvertScreen,
    SetPixelColumn(usize, Seq<u8>),
    FlushFramebuffer,
    ClearRam,
    ScreenSaver(bool),
    GetScreenSaver,
    SetFps(u8),
    GetFps,
    SetPowerMode(u8),
    GetPowerMode,
    SetAnimationPeriod(u16),
    GetAnimationPeriod,
    GetPwmFreq,
    SetDebugMode(bool),
    GetDebugMode,
    LedMatrixCommand(LedMatrixCommandV),
    B1DisplayCommand(B1DisplayCommandV),
    C1MinimalCommand(C1MinimalCommandV),
}

impl View for Command {
    type V = CommandV;

    open spec fn view(&self) -> CommandV {
        match self {
            Command::GetBrightness => CommandV::GetBrightness,
            Command::SetBrightness(b) => CommandV::SetBrightness(*b),
            Command::Pattern(p) => CommandV::Pattern(*p),
            Command::BootloaderReset => CommandV::BootloaderReset,
            Command::Percentage(p) => CommandV::Percentage(*p),
            Command::Sleep(s) => CommandV::Sleep(*s),
            Command::IsSleeping => CommandV::IsSleeping,
            Command::SetAnimate(a) => CommandV::SetAnimate(*a),
            Command::GetAnimate => CommandV::GetAnimate,
            Command::Panic => CommandV::Panic,
            Command::DrawGreyColBuffer => CommandV::DrawGreyColBuffer,
            Command::StartGame(g) => CommandV::StartGame(*g),
            Command::GameControl(c) => CommandV::GameControl(*c),
            Command::GameStatus => CommandV::GameStatus,
            Command::Version => CommandV::Version,
            Command::GetColor => CommandV::GetColor,
            Command::DisplayOn(o) => CommandV::DisplayOn(*o),
            Command::GetDisplayOn => CommandV::GetDisplayOn,
            Command::InvertScreen(i) => CommandV::InvertScreen(*i),
            Command::GetInvertScreen => CommandV::GetInvertScreen,
            Command::SetPixelColumn(c, px) => CommandV::SetPixelColumn(*c, px@),
            Command::FlushFramebuffer => CommandV::FlushFramebuffer,
            Command::ClearRam => CommandV::ClearRam,
            Command::ScreenSaver(s) => CommandV::ScreenSaver(*s),
            Command::GetScreenSaver => CommandV::GetScreenSaver,
            Command::SetFps(f) => CommandV::SetFps(*f),
            Command::GetFps => CommandV::GetFps,
            Command::SetPowerMode(m) => CommandV::SetPowerMode(*m),
            Command::GetPowerMode => CommandV::GetPowerMode,
            Command::SetAnimationPeriod(p) => CommandV::SetAnimationPeriod(*p),
            Command::GetAnimationPeriod => CommandV::GetAnimationPeriod,
            Command::GetPwmFreq => CommandV::GetPwmFreq,
            Command::SetDebugMode(d) => CommandV::SetDebugMode(*d),
            Command::GetDebugMode => CommandV::GetDebugMode,
            Command::LedMatrixCommand(c) => CommandV::LedMatrixCommand(c@),
            Command::B1DisplayCommand(c) => CommandV::B1DisplayCommand(c@),
            Command::C1MinimalCommand(c) => CommandV::C1MinimalCommand(c@),
        }
    }
}

/// A 16-bit little-endian value read from two bytes.
pub open spec fn spec_u16_le(b0: u8, b1: u8) -> u16 {
    (b0 + 256 * (b1 as int)) as u16
}

/// Payload sizes a parsed command is guaranteed to carry: parsers only
/// produce commands whose payloads have the lengths the frame format fixes.
pub open spec fn spec_command_wf(c: CommandV) -> bool {
    match c {
        CommandV::SetPixelColumn(_, px) => px.len() == 50,
        CommandV::LedMatrixCommand(LedMatrixCommandV::Draw(vals)) => vals.len()
            == crate::patterns::DRAW_BYTES,
        CommandV::LedMatrixCommand(LedMatrixCommandV::StageGreyCol(_, vals)) => vals.len()
            == crate::matrix::HEIGHT,
        CommandV::B1DisplayCommand(B1DisplayCommandV::SetText(text)) => text.len() < 32,
        _ => true,
    }
}

/// View of an optional command.
pub open spec fn cmd_view(r: Option<Command>) -> Option<CommandV> {
    match r {
        Some(c) => Some(c@),
        None => None,
    }
}

/// View of an optional reply buffer.
pub open spec fn reply_view(r: Option<Vec<u8>>) -> Option<Seq<u8>> {
    match r {
        Some(b) => Some(b@),
        None => None,
    }
}

/// Whether a buffer of `count` valid bytes starts with a frame header: the
/// two magic bytes and an opcode.
pub open spec fn spec_is_frame(count: int, buf: Seq<u8>) -> bool {
    count >= 3 && buf[0] == MAGIC0 && buf[1] == MAGIC1
}

/// The optional argument byte of a frame.
pub open spec fn spec_arg(count: int, buf: Seq<u8>) -> Option<u8> {
    if count <= 3 {
        None
    } else {
        Some(buf[3])
    }
}

/// The commands common to all modules, parsed from a frame.
pub open spec fn spec_parse_generic(count: int, buf: Seq<u8>) -> Option<CommandV> {
    if spec_is_frame(count, buf) {
        match spec_command_from_u8(buf[2]) {
            Some(CommandVals::Sleep) => Some(
                match spec_arg(count, buf) {
                    Some(go_to_sleep) => CommandV::Sleep(go_to_sleep == 1),
                    None => CommandV::IsSleeping,
                },
            ),
            Some(CommandVals::BootloaderReset) => Some(CommandV::BootloaderReset),
            Some(CommandVals::Panic) => Some(CommandV::Panic),
            Some(CommandVals::Version) => Some(CommandV::Version),
            _ => None,
        }
    } else {
        None
    }
}

/// A module's combined parse: its own parser first, the generic one second.
pub open spec fn spec_parse_with_fallback(
    module: Option<CommandV>,
    count: int,
    buf: Seq<u8>,
) -> Option<CommandV> {
    if module is Some {
        module
    } else {
        spec_parse_generic(count, buf)
    }
}

/// Module-specific parse takes priority over generic parse: whenever a
/// module's own parser recognises a frame, the combined parse returns its
/// result, whatever the generic parser would say.
pub proof fn lemma_module_parse_priority(module: Option<CommandV>, count: int, buf: Seq<u8>)
    requires
        module is Some,
    ensures
        spec_parse_with_fallback(module, count, buf) == module,
{
}

/// Parsing is deterministic and total: the combined parse is a function of
/// the byte buffer and count alone, so any two parses of identical bytes
/// agree, whether they yield a command or none.
pub proof fn lemma_parse_deterministic(
    module: Option<CommandV>,
    count: int,
    buf: Seq<u8>,
    r1: Option<CommandV>,
    r2: Option<CommandV>,
)
    requires
        r1 == spec_parse_with_fallback(module, count, buf),
        r2 == spec_parse_with_fallback(module, count, buf),
    ensures
        r1 == r2,
{
}

/// One input module kind: a module-specific parser over the shared frame
/// format, with the generic commands as fallback.
pub trait ControllableModule {
    /// What the module's own parser recognises.
    spec fn spec_parse(count: int, buf: Seq<u8>) -> Option<CommandV>;

    /// The module's own parser.
    fn parse_command(count: usize, buf: &[u8]) -> (r: Option<Command>)
        requires
            count <= buf@.len(),
        ensures
            cmd_view(r) == Self::spec_parse(count as int, buf@),
            r matches Some(c) ==> spec_command_wf(c@),
    ;
}

/// Copies `buf[start..end]` into an owned payload vector.
pub(crate) fn bytes_of(buf: &[u8], start: usize, end: usize) -> (r: Vec<u8>)
    requires
        start <= end <= buf@.len(),
    ensures
        r@ == buf@.subrange(start as int, end as int),
{
    let mut r: Vec<u8> = Vec::new();
    let mut i: usize = start;
    while i < end
        invariant
            start <= i <= end <= buf@.len(),
            r@ == buf@.subrange(start as int, i as int),
        decreases end - i,
    {
        r.push(buf[i]);
        assert(r@ =~= buf@.subrange(start as int, (i + 1) as int));
        i = i + 1;
    }
    r
}

/// Parses the generic commands common to all modules.
fn parse_generic_command(count: usize, buf: &[u8]) -> (r: Option<Command>)
    requires
        count <= buf@.len(),
    ensures
        cmd_view(r) == spec_parse_generic(count as int, buf@),
        r matches Some(c) ==> spec_command_wf(c@),
{
    if count >= 3 && buf[0] == MAGIC0 && buf[1] == MAGIC1 {
        let command = buf[2];
        let arg = if count <= 3 {
            None
        } else {
            Some(buf[3])
        };
        match command_from_u8(command) {
            Some(CommandVals::Sleep) => Some(
                if let Some(go_to_sleep) = arg {
                    Command::Sleep(go_to_sleep == 1)
                } else {
                    Command::IsSleeping
                },
            ),
            Some(CommandVals::BootloaderReset) => Some(Command::BootloaderReset),
            Some(CommandVals::Panic) => Some(Command::Panic),
            Some(CommandVals::Version) => Some(Command::Version),
            _ => None,
        }
    } else {
        None
    }
}

/// Parses one frame for module `M`: the module's parser first, then the
/// generic fallback; a frame neither recognises yields no command.
pub fn parse_command<M: ControllableModule>(count: usize, buf: &[u8]) -> (r: Option<Command>)
    requires
        count <= buf@.len(),
    ensures
        cmd_view(r) == spec_parse_with_fallback(
            M::spec_parse(count as int, buf@),
            count as int,
            buf@,
        ),
        r matches Some(c) ==> spec_command_wf(c@),
{
    if let Some(command) = M::parse_command(count, buf) {
        return Some(command);
    }
    parse_generic_command(count, buf)
}

/// What the caller must do to the hardware after a generic command.
#[derive(Copy, Clone, PartialEq, Eq, Structural, Debug)]
pub enum GenericAction {
    /// Nothing beyond the state change already made.
    NoAction,
    /// Jump into the mask-ROM update mode; the device resets, no reply is
    /// possible.
    BootloaderReset,
    /// Raise the deliberate fatal fault.
    Panic,
}

/// The all-zero 32-byte reply.
pub open spec fn zero_reply() -> Seq<u8> {
    Seq::new(32, |i: int| 0u8)
}

/// A reply with one meaningful leading byte.
pub open spec fn reply1(b0: u8) -> Seq<u8> {
    zero_reply().update(0, b0)
}

/// A reply with two meaningful leading bytes.
pub open spec fn reply2(b0: u8, b1: u8) -> Seq<u8> {
    zero_reply().update(0, b0).update(1, b1)
}

/// A reply with three meaningful leading bytes.
pub open spec fn reply3(b0: u8, b1: u8, b2: u8) -> Seq<u8> {
    zero_reply().update(0, b0).update(1, b1).update(2, b2)
}

/// Allocates a zeroed 32-byte reply buffer.
pub fn new_reply() -> (r: Vec<u8>)
    ensures
        r@ == zero_reply(),
{
    let mut r: Vec<u8> = Vec::new();
    let mut i: usize = 0;
    while i < 32
        invariant
            i <= 32,
            r@ == Seq::new(i as nat, |j: int| 0u8),
        decreases 32 - i,
    {
        r.push(0);
        assert(r@ =~= Seq::new((i + 1) as nat, |j: int| 0u8));
        i = i + 1;
    }
    r
}

/// The Version reply: big-endian release word, then the pre-release flag.
pub open spec fn spec_version_reply(release: u16, pre_release: bool) -> Seq<u8> {
    reply3(
        (release / 256) as u8,
        (release % 256) as u8,
        if pre_release {
            1u8
        } else {
            0u8
        },
    )
}

/// The generic handler's reply and hardware action for one command.
pub open spec fn spec_handle_generic(
    command: CommandV,
    release: u16,
    pre_release: bool,
) -> (Option<Seq<u8>>, GenericAction) {
    match command {
        CommandV::BootloaderReset => (None, GenericAction::BootloaderReset),
        CommandV::Panic => (None, GenericAction::Panic),
        CommandV::Version => (Some(spec_version_reply(release, pre_release)), GenericAction::NoAction),
        _ => (None, GenericAction::NoAction),
    }
}

/// Handles the commands common to all modules. `release` and `pre_release`
/// are the device's burned-in release metadata, read by the caller. The
/// returned action is performed by the caller: the bootloader jump and the
/// deliberate fault never return, so they cannot happen here.
pub fn handle_generic_command(command: &Command, release: u16, pre_release: bool) -> (r: (
    Option<Vec<u8>>,
    GenericAction,
))
    ensures
        (reply_view(r.0), r.1) == spec_handle_generic(command@, release, pre_release),
{
    match command {
        Command::BootloaderReset => (None, GenericAction::BootloaderReset),
        Command::Panic => (None, GenericAction::Panic),
        Command::Version => {
            let mut response = new_reply();
            response.set(0, (release / 256) as u8);
            response.set(1, (release % 256) as u8);
            response.set(
                2,
                if pre_release {
                    1
                } else {
                    0
                },
            );
            (Some(response), GenericAction::NoAction)
        },
        _ => (None, GenericAction::NoAction),
    }
}

} // verus!
