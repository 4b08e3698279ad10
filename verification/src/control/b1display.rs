//! The bistable display module: text, pixel columns, screensaver, frame
//! rate and power mode.

use crate::control::{
    cmd_view, command_from_u8, handle_generic_command, new_reply, parse_command, reply1, reply2,
    reply_view, spec_arg, spec_command_from_u8, spec_handle_generic, spec_is_frame,
    spec_parse_with_fallback, spec_u16_le, Command, CommandV, CommandVals, ControllableModule, DisplayMode,
    GenericAction, MAGIC0, MAGIC1,
};
use crate::patterns::spec_bit;
use vstd::prelude::*;
use vstd::utf8::valid_utf8;

verus! {

/// Checks that the bytes form a valid UTF-8 encoding: each scalar starts
/// with a well-formed leading byte, carries the right number of continuation
/// bytes, is not an overlong encoding and is not a surrogate.
pub fn is_valid_utf8(bytes: &Vec<u8>) -> (r: bool)
    ensures
        r == valid_utf8(bytes@),
{
    let n = bytes.len();
    let mut i: usize = 0;
    assert(bytes@.subrange(0, n as int) =~= bytes@);
    while i < n
        invariant
            i <= n,
            n == bytes@.len(),
            valid_utf8(bytes@) == valid_utf8(bytes@.subrange(i as int, n as int)),
        decreases n - i,
    {
        let ghost rest = bytes@.subrange(i as int, n as int);
        let b0 = bytes[i];
        assert(rest[0] == b0);
        let width: usize;
        if b0 <= 0x7f {
            // One byte: the codepoint is the byte itself, below the
            // surrogate range, and a one-byte encoding is never overlong.
            proof {
                assert(b0 & 0x7f <= 0x7f) by (bit_vector);
                assert(vstd::utf8::valid_first_scalar(rest));
                assert(vstd::utf8::length_of_first_scalar(rest) == 1);
            }
            width = 1;
        } else if 0xc0 <= b0 && b0 <= 0xdf {
            if n - i >= 2 && 0x80 <= bytes[i + 1] && bytes[i + 1] <= 0xbf {
                let b1 = bytes[i + 1];
                assert(rest[1] == b1);
                let hi: u32 = (b0 & 0x1f) as u32;
                let lo: u32 = (b1 & 0x3f) as u32;
                let cp: u32 = (hi << 6u32) | lo;
                assert(cp == vstd::utf8::decode_first_codepoint(rest));
                assert(vstd::utf8::length_of_first_codepoint(rest) == 2);
                if cp >= 0x80 {
                    // Two bytes encode at most eleven data bits, well below
                    // the surrogate range.
                    proof {
                        assert((b0 & 0x1f) <= 0x1f) by (bit_vector);
                        assert((b1 & 0x3f) <= 0x3f) by (bit_vector);
                        assert((hi << 6u32) | lo <= 0x7ff) by (bit_vector)
                            requires hi <= 0x1f && lo <= 0x3f;
                        assert(vstd::utf8::valid_first_scalar(rest));
                    }
                    width = 2;
                } else {
                    // Overlong: two bytes for a value one byte can hold.
                    assert(!vstd::utf8::not_overlong_encoding(cp, 2));
                    assert(!valid_utf8(bytes@));
                    return false;
                }
            } else {
                assert(!vstd::utf8::valid_leading_and_continuation_bytes_first_codepoint(rest));
                assert(!valid_utf8(bytes@));
                return false;
            }
        } else if 0xe0 <= b0 && b0 <= 0xef {
            if n - i >= 3 && 0x80 <= bytes[i + 1] && bytes[i + 1] <= 0xbf && 0x80 <= bytes[i + 2]
                && bytes[i + 2] <= 0xbf {
                let b1 = bytes[i + 1];
                let b2 = bytes[i + 2];
                assert(rest[1] == b1 && rest[2] == b2);
                let cp: u32 = (((b0 & 0x0f) as u32) << 12u32) | (((b1 & 0x3f) as u32) << 6u32) | (
                (b2 & 0x3f) as u32);
                assert(cp == vstd::utf8::decode_first_codepoint(rest));
                assert(vstd::utf8::length_of_first_codepoint(rest) == 3);
                if 0x800 <= cp && !(0xd800 <= cp && cp <= 0xdfff) {
                    assert(vstd::utf8::valid_first_scalar(rest));
                    width = 3;
                } else {
                    // Overlong encoding or surrogate value.
                    assert(!vstd::utf8::valid_first_scalar(rest));
                    assert(!valid_utf8(bytes@));
                    return false;
                }
            } else {
                assert(!vstd::utf8::valid_leading_and_continuation_bytes_first_codepoint(rest));
                assert(!valid_utf8(bytes@));
                return false;
            }
        } else if 0xf0 <= b0 && b0 <= 0xf7 {
            if n - i >= 4 && 0x80 <= bytes[i + 1] && bytes[i + 1] <= 0xbf && 0x80 <= bytes[i + 2]
                && bytes[i + 2] <= 0xbf && 0x80 <= bytes[i + 3] && bytes[i + 3] <= 0xbf {
                let b1 = bytes[i + 1];
                let b2 = bytes[i + 2];
                let b3 = bytes[i + 3];
                assert(rest[1] == b1 && rest[2] == b2 && rest[3] == b3);
                let cp: u32 = (((b0 & 0x07) as u32) << 18u32) | (((b1 & 0x3f) as u32) << 12u32) | (
                ((b2 & 0x3f) as u32) << 6u32) | ((b3 & 0x3f) as u32);
                assert(cp == vstd::utf8::decode_first_codepoint(rest));
                assert(vstd::utf8::length_of_first_codepoint(rest) == 4);
                if 0x10000 <= cp && cp <= 0x10ffff {
                    // Beyond 0xFFFF the surrogate range cannot be hit.
                    assert(vstd::utf8::valid_first_scalar(rest));
                    width = 4;
                } else {
                    // Overlong encoding or a value beyond the last scalar.
                    assert(!vstd::utf8::not_overlong_encoding(cp, 4));
                    assert(!valid_utf8(bytes@));
                    return false;
                }
            } else {
                assert(!vstd::utf8::valid_leading_and_continuation_bytes_first_codepoint(rest));
                assert(!valid_utf8(bytes@));
                return false;
            }
        } else {
            // A stray continuation byte (0x80 to 0xbf) or a byte no UTF-8
            // leading pattern allows (0xf8 to 0xff).
            assert(!vstd::utf8::valid_leading_and_continuation_bytes_first_codepoint(rest));
            assert(!valid_utf8(bytes@));
            return false;
        }
        proof {
            assert(vstd::utf8::pop_first_scalar(rest) =~= bytes@.subrange(
                i + width as int,
                n as int,
            ));
            assert(valid_utf8(rest) == valid_utf8(
                bytes@.subrange(i + width as int, n as int),
            ));
        }
        i = i + width;
    }
    assert(bytes@.subrange(n as int, n as int).len() == 0);
    true
}

/// Tag struct for the B1 Display input module.
pub struct B1DisplayTag;

impl ControllableModule for B1DisplayTag {
    open spec fn spec_parse(count: int, buf: Seq<u8>) -> Option<CommandV> {
        spec_parse_b1display(count, buf)
    }

    fn parse_command(count: usize, buf: &[u8]) -> (r: Option<Command>) {
        parse_module_command_b1display(count, buf)
    }
}

/// Parses one frame for the bistable display, generic fallback included.
pub fn parse_command_b1display(count: usize, buf: &[u8]) -> (r: Option<Command>)
    requires
        count <= buf@.len(),
    ensures
        cmd_view(r) == spec_parse_with_fallback(
            spec_parse_b1display(count as int, buf@),
            count as int,
            buf@,
        ),
        r matches Some(c) ==> crate::control::spec_command_wf(c@),
{
    parse_command::<B1DisplayTag>(count, buf)
}

/// Commands only the bistable display understands.
pub enum B1DisplayCommand {
    /// Show a text; the payload is the text's bytes, at most 31 of them.
    SetText(Vec<u8>),
}

/// Mathematical model of `B1DisplayCommand`.
pub enum B1DisplayCommandV {
    SetText(Seq<u8>),
}

impl View for B1DisplayCommand {
    type V = B1DisplayCommandV;

    open spec fn view(&self) -> B1DisplayCommandV {
        match self {
            B1DisplayCommand::SetText(text) => B1DisplayCommandV::SetText(text@),
        }
    }
}

/// Whether the module is asleep; the display captures nothing on sleep.
#[derive(Copy, Clone, PartialEq, Eq, Structural, Debug)]
pub enum SimpleSleepState {
    Awake,
    Sleeping,
}

/// Motion vector of the screensaver; present only while the screensaver is
/// enabled.
#[derive(Copy, Clone, PartialEq, Eq, Structural, Debug)]
pub struct ScreenSaverState {
    pub rightwards: i32,
    pub downwards: i32,
}

impl Default for ScreenSaverState {
    /// A fresh screensaver drifts one pixel right and down.
    fn default() -> (r: Self)
        ensures
            r == (ScreenSaverState { rightwards: 1, downwards: 1 }),
    {
        Self { rightwards: 1, downwards: 1 }
    }
}

/// High-power-mode frame rates of the display driver.
#[derive(Copy, Clone, PartialEq, Eq, Structural, Debug)]
pub enum HpmFps {
    Sixteen,
    ThirtyTwo,
}

/// Low-power-mode frame rates of the display driver.
#[derive(Copy, Clone, PartialEq, Eq, Structural, Debug)]
pub enum LpmFps {
    Quarter,
    Half,
    One,
    Two,
    Four,
    Eight,
}

/// The display's frame-rate configuration: one rate per power mode.
#[derive(Copy, Clone, PartialEq, Eq, Structural, Debug)]
pub struct FpsConfig {
    pub hpm: HpmFps,
    pub lpm: LpmFps,
}

/// The frame-rate configuration a byte selects, if any: the three low bits
/// pick the low-power rate (six and seven select nothing), bit four picks
/// the high-power rate, and the remaining bits are ignored.
pub open spec fn spec_fps_from_u8(byte: u8) -> Option<FpsConfig> {
    if byte % 8 <= 5 {
        Some(
            FpsConfig {
                hpm: if (byte / 16) % 2 == 1 {
                    HpmFps::ThirtyTwo
                } else {
                    HpmFps::Sixteen
                },
                lpm: if byte % 8 == 0 {
                    LpmFps::Quarter
                } else if byte % 8 == 1 {
                    LpmFps::Half
                } else if byte % 8 == 2 {
                    LpmFps::One
                } else if byte % 8 == 3 {
                    LpmFps::Two
                } else if byte % 8 == 4 {
                    LpmFps::Four
                } else {
                    LpmFps::Eight
                },
            },
        )
    } else {
        None
    }
}

/// The byte a frame-rate configuration is reported as: the sum of the
/// high-power code (zero or sixteen) and the low-power code (zero to five).
pub open spec fn spec_fps_as_u8(cfg: FpsConfig) -> u8 {
    ((match cfg.hpm {
        HpmFps::Sixteen => 0u8,
        HpmFps::ThirtyTwo => 16u8,
    }) + (match cfg.lpm {
        LpmFps::Quarter => 0u8,
        LpmFps::Half => 1u8,
        LpmFps::One => 2u8,
        LpmFps::Two => 3u8,
        LpmFps::Four => 4u8,
        LpmFps::Eight => 5u8,
    })) as u8
}

/// Relies on st7306::FpsConfig::from_u8: the three low bits select the
/// low-power rate, with six and seven rejected; bit four selects sixteen or
/// thirty-two frames per second in high-power mode; higher bits are ignored.
#[verifier::external_body]
fn fps_config_from_u8(byte: u8) -> (r: Option<FpsConfig>)
    ensures
        r == spec_fps_from_u8(byte),
{
    let c = match st7306::FpsConfig::from_u8(byte) { Some(c) => c, None => return None };
    let hpm = match c.hpm {
        st7306::HpmFps::Sixteen => HpmFps::Sixteen, st7306::HpmFps::ThirtyTwo => HpmFps::ThirtyTwo,
    };
    let lpm = match c.lpm {
        st7306::LpmFps::Quarter => LpmFps::Quarter, st7306::LpmFps::Half => LpmFps::Half,
        st7306::LpmFps::One => LpmFps::One, st7306::LpmFps::Two => LpmFps::Two,
        st7306::LpmFps::Four => LpmFps::Four, st7306::LpmFps::Eight => LpmFps::Eight,
    };
    Some(FpsConfig { hpm, lpm })
}

/// Relies on st7306::FpsConfig::as_u8: the FRCTRL byte is the sum of the
/// high-power discriminant (zero or sixteen) and the low-power discriminant
/// (zero to five).
#[verifier::external_body]
fn fps_config_as_u8(cfg: &FpsConfig) -> (r: u8)
    ensures
        r == spec_fps_as_u8(*cfg),
{
    let hpm = match cfg.hpm {
        HpmFps::Sixteen => st7306::HpmFps::Sixteen, HpmFps::ThirtyTwo => st7306::HpmFps::ThirtyTwo,
    };
    let lpm = match cfg.lpm {
        LpmFps::Quarter => st7306::LpmFps::Quarter, LpmFps::Half => st7306::LpmFps::Half,
        LpmFps::One => st7306::LpmFps::One, LpmFps::Two => st7306::LpmFps::Two,
        LpmFps::Four => st7306::LpmFps::Four, LpmFps::Eight => st7306::LpmFps::Eight,
    };
    (st7306::FpsConfig { hpm, lpm }).as_u8()
}

/// State of the bistable display module.
#[derive(Copy, Clone, PartialEq, Eq, Structural, Debug)]
pub struct B1DIsplayState {
    pub sleeping: SimpleSleepState,
    pub screen_inverted: bool,
    pub screen_on: bool,
    pub screensaver: Option<ScreenSaverState>,
    pub power_mode: DisplayMode,
    pub fps_config: FpsConfig,
    /// Animation period in microsecond ticks, 1000 per externally visible
    /// millisecond.
    pub animation_period: u64,
}

/// What the display's own parser recognises. A SetText frame whose declared
/// length exceeds the remaining bytes or the 31-byte limit, or whose payload
/// is not valid UTF-8, is a protocol violation and is discarded like a
/// malformed frame.
pub open spec fn spec_parse_b1display(count: int, buf: Seq<u8>) -> Option<CommandV> {
    if spec_is_frame(count, buf) {
        match spec_command_from_u8(buf[2]) {
            Some(CommandVals::SetText) => match spec_arg(count, buf) {
                Some(arg) => if arg as int <= count - 4 && arg < 32 && valid_utf8(
                    buf.subrange(4, 4 + arg as int),
                ) {
                    Some(
                        CommandV::B1DisplayCommand(
                            B1DisplayCommandV::SetText(buf.subrange(4, 4 + arg as int)),
                        ),
                    )
                } else {
                    None
                },
                None => None,
            },
            Some(CommandVals::DisplayOn) => Some(
                match spec_arg(count, buf) {
                    Some(on) => CommandV::DisplayOn(on == 1),
                    None => CommandV::GetDisplayOn,
                },
            ),
            Some(CommandVals::InvertScreen) => Some(
                match spec_arg(count, buf) {
                    Some(invert) => CommandV::InvertScreen(invert == 1),
                    None => CommandV::GetInvertScreen,
                },
            ),
            Some(CommandVals::SetPixelColumn) => if count == 3 + 2 + 50 {
                Some(
                    CommandV::SetPixelColumn(
                        spec_u16_le(buf[3], buf[4]) as usize,
                        buf.subrange(5, 55),
                    ),
                )
            } else {
                None
            },
            Some(CommandVals::FlushFramebuffer) => Some(CommandV::FlushFramebuffer),
            Some(CommandVals::ClearRam) => Some(CommandV::ClearRam),
            Some(CommandVals::ScreenSaver) => Some(
                match spec_arg(count, buf) {
                    Some(on) => CommandV::ScreenSaver(on == 1),
                    None => CommandV::GetScreenSaver,
                },
            ),
            Some(CommandVals::SetFps) => Some(
                match spec_arg(count, buf) {
                    Some(fps) => CommandV::SetFps(fps),
                    None => CommandV::GetFps,
                },
            ),
            Some(CommandVals::SetPowerMode) => Some(
                match spec_arg(count, buf) {
                    Some(mode) => CommandV::SetPowerMode(mode),
                    None => CommandV::GetPowerMode,
                },
            ),
            Some(CommandVals::AnimationPeriod) => if count == 3 + 2 {
                Some(CommandV::SetAnimationPeriod(spec_u16_le(buf[3], buf[4])))
            } else {
                Some(CommandV::GetAnimationPeriod)
            },
            _ => None,
        }
    } else {
        None
    }
}

/// The display's own parser.
pub fn parse_module_command_b1display(count: usize, buf: &[u8]) -> (r: Option<Command>)
    requires
        count <= buf@.len(),
    ensures
        cmd_view(r) == spec_parse_b1display(count as int, buf@),
        r matches Some(c) ==> crate::control::spec_command_wf(c@),
{
    if count >= 3 && buf[0] == MAGIC0 && buf[1] == MAGIC1 {
        let command = buf[2];
        let arg = if count <= 3 {
            None
        } else {
            Some(buf[3])
        };
        match command_from_u8(command) {
            Some(CommandVals::SetText) => {
                if let Some(arg) = arg {
                    let available_len = count - 4;
                    let str_len = arg as usize;
                    if str_len <= available_len && str_len < 32 {
                        let text = crate::control::bytes_of(buf, 4, 4 + str_len);
                        if is_valid_utf8(&text) {
                            Some(Command::B1DisplayCommand(B1DisplayCommand::SetText(text)))
                        } else {
                            None
                        }
                    } else {
                        None
                    }
                } else {
                    None
                }
            },
            Some(CommandVals::DisplayOn) => Some(
                if let Some(on) = arg {
                    Command::DisplayOn(on == 1)
                } else {
                    Command::GetDisplayOn
                },
            ),
            Some(CommandVals::InvertScreen) => Some(
                if let Some(invert) = arg {
                    Command::InvertScreen(invert == 1)
                } else {
                    Command::GetInvertScreen
                },
            ),
            Some(CommandVals::SetPixelColumn) => {
                //  3 bytes for magic and command
                //  2 bytes for the column (u16)
                // 50 bytes for 400 pixels (400 / 8 = 50)
                if count == 3 + 2 + 50 {
                    let column: u16 = (buf[3] as u16) + 256 * (buf[4] as u16);
                    let pixels = crate::control::bytes_of(buf, 5, 55);
                    Some(Command::SetPixelColumn(column as usize, pixels))
                } else {
                    None
                }
            },
            Some(CommandVals::FlushFramebuffer) => Some(Command::FlushFramebuffer),
            Some(CommandVals::ClearRam) => Some(Command::ClearRam),
            Some(CommandVals::ScreenSaver) => Some(
                if let Some(on) = arg {
                    Command::ScreenSaver(on == 1)
                } else {
                    Command::GetScreenSaver
                },
            ),
            Some(CommandVals::SetFps) => Some(
                if let Some(fps) = arg {
                    Command::SetFps(fps)
                } else {
                    Command::GetFps
                },
            ),
            Some(CommandVals::SetPowerMode) => Some(
                if let Some(mode) = arg {
                    Command::SetPowerMode(mode)
                } else {
                    Command::GetPowerMode
                },
            ),
            Some(CommandVals::AnimationPeriod) => {
                if count == 3 + 2 {
                    let period: u16 = (buf[3] as u16) + 256 * (buf[4] as u16);
                    Some(Command::SetAnimationPeriod(period))
                } else {
                    Some(Command::GetAnimationPeriod)
                }
            },
            _ => None,
        }
    } else {
        None
    }
}

/// What the caller must do to the display hardware after a command.
pub enum B1DisplayAction {
    /// Nothing beyond the state change already made.
    NoAction,
    /// Clear the text area, draw this text and flush the framebuffer.
    DrawText(Vec<u8>),
    /// Turn the display panel on or off.
    SetDisplayOnOff(bool),
    /// Invert or un-invert the panel.
    SetInvertScreen(bool),
    /// Draw one column of pixel states, top to bottom.
    DrawPixels(usize, Vec<bool>),
    /// Flush the framebuffer.
    Flush,
    /// Clear the display RAM.
    ClearDisplayRam,
    /// Write the state's frame-rate configuration to the driver.
    ApplyFps,
    /// Switch the driver to the state's power mode.
    SwitchPowerMode,
    /// Jump into the mask-ROM update mode.
    BootloaderReset,
    /// Raise the deliberate fatal fault.
    Panic,
}

/// Mathematical model of `B1DisplayAction`.
pub enum B1DisplayActionV {
    NoAction,
    DrawText(Seq<u8>),
    SetDisplayOnOff(bool),
    SetInvertScreen(bool),
    DrawPixels(usize, Seq<bool>),
    Flush,
    ClearDisplayRam,
    ApplyFps,
    SwitchPowerMode,
    BootloaderReset,
    Panic,
}

impl View for B1DisplayAction {
    type V = B1DisplayActionV;

    open spec fn view(&self) -> B1DisplayActionV {
        match self {
            B1DisplayAction::NoAction => B1DisplayActionV::NoAction,
            B1DisplayAction::DrawText(text) => B1DisplayActionV::DrawText(text@),
            B1DisplayAction::SetDisplayOnOff(on) => B1DisplayActionV::SetDisplayOnOff(*on),
            B1DisplayAction::SetInvertScreen(invert) => B1DisplayActionV::SetInvertScreen(*invert),
            B1DisplayAction::DrawPixels(column, px) => B1DisplayActionV::DrawPixels(*column, px@),
            B1DisplayAction::Flush => B1DisplayActionV::Flush,
            B1DisplayAction::ClearDisplayRam => B1DisplayActionV::ClearDisplayRam,
            B1DisplayAction::ApplyFps => B1DisplayActionV::ApplyFps,
            B1DisplayAction::SwitchPowerMode => B1DisplayActionV::SwitchPowerMode,
            B1DisplayAction::BootloaderReset => B1DisplayActionV::BootloaderReset,
            B1DisplayAction::Panic => B1DisplayActionV::Panic,
        }
    }
}

/// Lifts a generic action into the display's action set.
pub open spec fn spec_lift_generic_b1(a: GenericAction) -> B1DisplayActionV {
    match a {
        GenericAction::NoAction => B1DisplayActionV::NoAction,
        GenericAction::BootloaderReset => B1DisplayActionV::BootloaderReset,
        GenericAction::Panic => B1DisplayActionV::Panic,
    }
}

/// The pixel states a column bitmap expands to: bit `i` of the stream, least
/// significant bit of each byte first, is the pixel in row `i`.
pub open spec fn spec_expand_pixels(bytes: Seq<u8>) -> Seq<bool> {
    Seq::new(bytes.len() * 8, |i: int| spec_bit(bytes[i / 8], i % 8))
}

/// Expands a 50-byte column bitmap into its 400 pixel states.
pub fn expand_pixel_column(bytes: &Vec<u8>) -> (pixels: Vec<bool>)
    requires
        bytes@.len() == 50,
    ensures
        pixels@ == spec_expand_pixels(bytes@),
{
    let mut pixels: Vec<bool> = Vec::new();
    let mut i: usize = 0;
    while i < 400
        invariant
            i <= 400,
            bytes@.len() == 50,
            pixels@.len() == i,
            forall|j: int| 0 <= j < i ==> (#[trigger] pixels@[j]) == spec_bit(
                bytes@[j / 8],
                j % 8,
            ),
        decreases 400 - i,
    {
        pixels.push(crate::patterns::read_bit(bytes[i / 8], i % 8));
        i = i + 1;
    }
    assert(pixels@ =~= spec_expand_pixels(bytes@));
    pixels
}

/// The display handler as a state-transition function: next state, optional
/// 32-byte reply, hardware action.
pub open spec fn spec_handle_b1display(
    command: CommandV,
    s: B1DIsplayState,
    release: u16,
    pre_release: bool,
) -> (B1DIsplayState, Option<Seq<u8>>, B1DisplayActionV) {
    match command {
        CommandV::IsSleeping => (
            s,
            Some(
                reply1(
                    if s.sleeping is Sleeping {
                        1u8
                    } else {
                        0u8
                    },
                ),
            ),
            B1DisplayActionV::NoAction,
        ),
        CommandV::B1DisplayCommand(B1DisplayCommandV::SetText(text)) => (
            (B1DIsplayState { screensaver: None, ..s }),
            None,
            B1DisplayActionV::DrawText(text),
        ),
        CommandV::DisplayOn(on) => (
            (B1DIsplayState { screen_on: on, ..s }),
            None,
            B1DisplayActionV::SetDisplayOnOff(on),
        ),
        CommandV::GetDisplayOn => (
            s,
            Some(
                reply1(
                    if s.screen_on {
                        1u8
                    } else {
                        0u8
                    },
                ),
            ),
            B1DisplayActionV::NoAction,
        ),
        CommandV::InvertScreen(invert) => (
            (B1DIsplayState { screen_inverted: invert, ..s }),
            None,
            B1DisplayActionV::SetInvertScreen(invert),
        ),
        CommandV::GetInvertScreen => (
            s,
            Some(
                reply1(
                    if s.screen_inverted {
                        1u8
                    } else {
                        0u8
                    },
                ),
            ),
            B1DisplayActionV::NoAction,
        ),
        CommandV::SetPixelColumn(column, pixel_bytes) => (
            (B1DIsplayState { screensaver: None, ..s }),
            None,
            B1DisplayActionV::DrawPixels(column, spec_expand_pixels(pixel_bytes)),
        ),
        CommandV::FlushFramebuffer => (s, None, B1DisplayActionV::Flush),
        CommandV::ClearRam => (
            (B1DIsplayState { screensaver: None, ..s }),
            None,
            B1DisplayActionV::ClearDisplayRam,
        ),
        CommandV::ScreenSaver(on) => (
            (B1DIsplayState {
                screensaver: match (on, s.screensaver) {
                    (true, Some(x)) => Some(x),
                    (true, None) => Some(ScreenSaverState { rightwards: 1, downwards: 1 }),
                    (false, Some(_)) => None,
                    (false, None) => None,
                },
                ..s
            }),
            None,
            B1DisplayActionV::NoAction,
        ),
        CommandV::GetScreenSaver => (
            s,
            Some(
                reply1(
                    if s.screensaver is Some {
                        1u8
                    } else {
                        0u8
                    },
                ),
            ),
            B1DisplayActionV::NoAction,
        ),
        CommandV::SetFps(fps) => match spec_fps_from_u8(fps) {
            Some(fps_config) => (
                (B1DIsplayState { fps_config, ..s }),
                None,
                B1DisplayActionV::ApplyFps,
            ),
            None => (s, None, B1DisplayActionV::NoAction),
        },
        CommandV::GetFps => (
            s,
            Some(reply1(spec_fps_as_u8(s.fps_config))),
            B1DisplayActionV::NoAction,
        ),
        CommandV::SetPowerMode(mode) => if mode == 0 {
            (
                (B1DIsplayState { power_mode: DisplayMode::Lpm, ..s }),
                None,
                B1DisplayActionV::SwitchPowerMode,
            )
        } else if mode == 1 {
            (
                (B1DIsplayState { power_mode: DisplayMode::Hpm, ..s }),
                None,
                B1DisplayActionV::SwitchPowerMode,
            )
        } else {
            (s, None, B1DisplayActionV::NoAction)
        },
        CommandV::GetPowerMode => (
            s,
            Some(
                reply1(
                    match s.power_mode {
                        DisplayMode::Lpm => 0u8,
                        DisplayMode::Hpm => 1u8,
                    },
                ),
            ),
            B1DisplayActionV::NoAction,
        ),
        CommandV::SetAnimationPeriod(period) => (
            (B1DIsplayState { animation_period: (period * 1000) as u64, ..s }),
            None,
            B1DisplayActionV::NoAction,
        ),
        CommandV::GetAnimationPeriod => (
            s,
            Some(
                reply2(
                    ((s.animation_period / 1000) % 256) as u8,
                    (((s.animation_period / 1000) / 256) % 256) as u8,
                ),
            ),
            B1DisplayActionV::NoAction,
        ),
        _ => {
            let (reply, action) = spec_handle_generic(command, release, pre_release);
            (s, reply, spec_lift_generic_b1(action))
        },
    }
}

/// Handles one command for the bistable display. The caller performs the
/// returned action on the display driver; `release` and `pre_release` are
/// the device's release metadata for the Version reply.
pub fn handle_command_b1display(
    command: &Command,
    state: &mut B1DIsplayState,
    release: u16,
    pre_release: bool,
) -> (r: (Option<Vec<u8>>, B1DisplayAction))
    requires
        crate::control::spec_command_wf(command@),
    ensures
        (*final(state), reply_view(r.0), r.1@) == spec_handle_b1display(
            command@,
            *old(state),
            release,
            pre_release,
        ),
{
    match command {
        Command::IsSleeping => {
            let mut response = new_reply();
            response.set(
                0,
                match state.sleeping {
                    SimpleSleepState::Sleeping => 1,
                    SimpleSleepState::Awake => 0,
                },
            );
            (Some(response), B1DisplayAction::NoAction)
        },
        Command::B1DisplayCommand(B1DisplayCommand::SetText(text)) => {
            // Turn the screensaver off when drawing something.
            state.screensaver = None;
            (None, B1DisplayAction::DrawText(text.clone()))
        },
        Command::DisplayOn(on) => {
            state.screen_on = *on;
            (None, B1DisplayAction::SetDisplayOnOff(*on))
        },
        Command::GetDisplayOn => {
            let mut response = new_reply();
            response.set(
                0,
                if state.screen_on {
                    1
                } else {
                    0
                },
            );
            (Some(response), B1DisplayAction::NoAction)
        },
        Command::InvertScreen(invert) => {
            state.screen_inverted = *invert;
            (None, B1DisplayAction::SetInvertScreen(*invert))
        },
        Command::GetInvertScreen => {
            let mut response = new_reply();
            response.set(
                0,
                if state.screen_inverted {
                    1
                } else {
                    0
                },
            );
            (Some(response), B1DisplayAction::NoAction)
        },
        Command::SetPixelColumn(column, pixel_bytes) => {
            // Turn the screensaver off when drawing something.
            state.screensaver = None;
            let pixels = expand_pixel_column(pixel_bytes);
            (None, B1DisplayAction::DrawPixels(*column, pixels))
        },
        Command::FlushFramebuffer => (None, B1DisplayAction::Flush),
        Command::ClearRam => {
            // Turn the screensaver off when drawing something.
            state.screensaver = None;
            (None, B1DisplayAction::ClearDisplayRam)
        },
        Command::ScreenSaver(on) => {
            state.screensaver = match (*on, state.screensaver) {
                (true, Some(x)) => Some(x),
                (true, None) => Some(ScreenSaverState::default()),
                (false, Some(_)) => None,
                (false, None) => None,
            };
            (None, B1DisplayAction::NoAction)
        },
        Command::GetScreenSaver => {
            let mut response = new_reply();
            response.set(
                0,
                if state.screensaver.is_some() {
                    1
                } else {
                    0
                },
            );
            (Some(response), B1DisplayAction::NoAction)
        },
        Command::SetFps(fps) => {
            if let Some(fps_config) = fps_config_from_u8(*fps) {
                state.fps_config = fps_config;
                (None, B1DisplayAction::ApplyFps)
            } else {
                (None, B1DisplayAction::NoAction)
            }
        },
        Command::GetFps => {
            let mut response = new_reply();
            response.set(0, fps_config_as_u8(&state.fps_config));
            (Some(response), B1DisplayAction::NoAction)
        },
        Command::SetPowerMode(mode) => {
            match mode {
                0 => {
                    state.power_mode = DisplayMode::Lpm;
                    (None, B1DisplayAction::SwitchPowerMode)
                },
                1 => {
                    state.power_mode = DisplayMode::Hpm;
                    (None, B1DisplayAction::SwitchPowerMode)
                },
                _ => (None, B1DisplayAction::NoAction),
            }
        },
        Command::GetPowerMode => {
            let mut response = new_reply();
            response.set(
                0,
                match state.power_mode {
                    DisplayMode::Lpm => 0,
                    DisplayMode::Hpm => 1,
                },
            );
            (Some(response), B1DisplayAction::NoAction)
        },
        Command::SetAnimationPeriod(period) => {
            state.animation_period = (*period as u64) * 1000;
            (None, B1DisplayAction::NoAction)
        },
        Command::GetAnimationPeriod => {
            let period_ms: u64 = state.animation_period / 1000;
            let mut response = new_reply();
            response.set(0, (period_ms % 256) as u8);
            response.set(1, ((period_ms / 256) % 256) as u8);
            (Some(response), B1DisplayAction::NoAction)
        },
        _ => {
            let (reply, action) = handle_generic_command(command, release, pre_release);
            let lifted = match action {
                GenericAction::NoAction => B1DisplayAction::NoAction,
                GenericAction::BootloaderReset => B1DisplayAction::BootloaderReset,
                GenericAction::Panic => B1DisplayAction::Panic,
            };
            (reply, lifted)
        },
    }
}

/// Whether a command is one of the display's drawing family.
pub open spec fn spec_is_draw_command(command: CommandV) -> bool {
    ||| command matches CommandV::B1DisplayCommand(B1DisplayCommandV::SetText(_))
    ||| command matches CommandV::SetPixelColumn(_, _)
    ||| command is ClearRam
}

/// Drawing implicitly cancels the screensaver: after any drawing-family
/// command the screensaver state is absent, whatever it was before.
pub proof fn lemma_draw_clears_screensaver(
    command: CommandV,
    s: B1DIsplayState,
    release: u16,
    pre_release: bool,
)
    requires
        spec_is_draw_command(command),
    ensures
        spec_handle_b1display(command, s, release, pre_release).0.screensaver is None,
{
}

/// Setting the animation period and then reading it returns the same
/// millisecond value: the period is stored internally in microsecond ticks,
/// a thousand per externally visible millisecond.
pub proof fn lemma_b1_animation_period_roundtrip(
    s: B1DIsplayState,
    period_ms: u16,
    release: u16,
    pre_release: bool,
)
    ensures
        ({
            let (s1, r1, a1) = spec_handle_b1display(
                CommandV::SetAnimationPeriod(period_ms),
                s,
                release,
                pre_release,
            );
            let (s2, r2, a2) = spec_handle_b1display(
                CommandV::GetAnimationPeriod,
                s1,
                release,
                pre_release,
            );
            &&& s1.animation_period == period_ms * 1000
            &&& s2 == s1
            &&& r2 == Some(reply2((period_ms % 256) as u8, ((period_ms / 256) % 256) as u8))
        }),
{
    let p = period_ms as int;
    assert(p * 1000 / 1000 == p) by (nonlinear_arith);
    assert((p * 1000) as u64 as int == p * 1000) by (nonlinear_arith)
        requires 0 <= p <= 65535;
}

} // verus!
