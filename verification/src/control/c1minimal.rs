//! The minimal single-LED indicator module: brightness and one RGB color.

use crate::control::{
    cmd_view, handle_generic_command, parse_command, reply_view, spec_arg, spec_handle_generic,
    spec_is_frame, spec_parse_with_fallback, spec_command_from_u8, command_from_u8, new_reply,
    Command, CommandV, CommandVals, ControllableModule, GenericAction,
};
use vstd::prelude::*;

verus! {

/// Tag struct for the C1 Minimal input module.
pub struct C1MinimalTag;

impl ControllableModule for C1MinimalTag {
    open spec fn spec_parse(count: int, buf: Seq<u8>) -> Option<CommandV> {
        spec_parse_c1minimal(count, buf)
    }

    fn parse_command(count: usize, buf: &[u8]) -> (r: Option<Command>) {
        parse_module_command_c1minimal(count, buf)
    }
}

/// Parses one frame for the minimal indicator, generic fallback included.
pub fn parse_command_c1minimal(count: usize, buf: &[u8]) -> (r: Option<Command>)
    requires
        count <= buf@.len(),
    ensures
        cmd_view(r) == spec_parse_with_fallback(
            spec_parse_c1minimal(count as int, buf@),
            count as int,
            buf@,
        ),
        r matches Some(c) ==> crate::control::spec_command_wf(c@),
{
    parse_command::<C1MinimalTag>(count, buf)
}

/// One RGB color, eight bits per channel.
#[derive(Copy, Clone, PartialEq, Eq, Structural, Debug)]
pub struct Rgb8 {
    pub r: u8,
    pub g: u8,
    pub b: u8,
}

/// Commands only the minimal indicator understands.
#[derive(Copy, Clone, PartialEq, Eq, Structural, Debug)]
pub enum C1MinimalCommand {
    SetColor(Rgb8),
}

/// Mathematical model of `C1MinimalCommand`; the payload is already plain.
pub type C1MinimalCommandV = C1MinimalCommand;

impl View for C1MinimalCommand {
    type V = C1MinimalCommandV;

    open spec fn view(&self) -> C1MinimalCommandV {
        *self
    }
}

/// Whether the module is asleep; the indicator captures nothing on sleep.
#[derive(Copy, Clone, PartialEq, Eq, Structural, Debug)]
pub enum SimpleSleepState {
    Awake,
    Sleeping,
}

/// State of the minimal indicator module.
#[derive(Copy, Clone, PartialEq, Eq, Structural, Debug)]
pub struct C1MinimalState {
    pub sleeping: SimpleSleepState,
    pub color: Rgb8,
    pub brightness: u8,
}

/// What the indicator's own parser recognises: brightness get/set and color
/// get/set. A color set needs three payload bytes; a color frame with an
/// argument but fewer than three payload bytes is dropped.
pub open spec fn spec_parse_c1minimal(count: int, buf: Seq<u8>) -> Option<CommandV> {
    if spec_is_frame(count, buf) {
        match spec_command_from_u8(buf[2]) {
            Some(CommandVals::Brightness) => Some(
                match spec_arg(count, buf) {
                    Some(brightness) => CommandV::SetBrightness(brightness),
                    None => CommandV::GetBrightness,
                },
            ),
            Some(CommandVals::SetColor) => if count >= 6 {
                Some(
                    CommandV::C1MinimalCommand(
                        C1MinimalCommand::SetColor(
                            Rgb8 { r: buf[3], g: buf[4], b: buf[5] },
                        ),
                    ),
                )
            } else if spec_arg(count, buf) is None {
                Some(CommandV::GetColor)
            } else {
                None
            },
            _ => None,
        }
    } else {
        None
    }
}

/// The indicator's own parser.
pub fn parse_module_command_c1minimal(count: usize, buf: &[u8]) -> (r: Option<Command>)
    requires
        count <= buf@.len(),
    ensures
        cmd_view(r) == spec_parse_c1minimal(count as int, buf@),
        r matches Some(c) ==> crate::control::spec_command_wf(c@),
{
    if count >= 3 && buf[0] == crate::control::MAGIC0 && buf[1] == crate::control::MAGIC1 {
        let command = buf[2];
        let arg = if count <= 3 {
            None
        } else {
            Some(buf[3])
        };
        match command_from_u8(command) {
            Some(CommandVals::Brightness) => Some(
                if let Some(brightness) = arg {
                    Command::SetBrightness(brightness)
                } else {
                    Command::GetBrightness
                },
            ),
            Some(CommandVals::SetColor) => {
                if count >= 6 {
                    let (red, green, blue) = (buf[3], buf[4], buf[5]);
                    Some(
                        Command::C1MinimalCommand(
                            C1MinimalCommand::SetColor(Rgb8 { r: red, g: green, b: blue }),
                        ),
                    )
                } else if arg.is_none() {
                    Some(Command::GetColor)
                } else {
                    None
                }
            },
            _ => None,
        }
    } else {
        None
    }
}

/// What the caller must do to the hardware after an indicator command.
#[derive(Copy, Clone, PartialEq, Eq, Structural, Debug)]
pub enum C1MinimalAction {
    /// Nothing beyond the state change already made.
    NoAction,
    /// Write the state's color, scaled by its brightness, to the LED.
    UpdateLed,
    /// Jump into the mask-ROM update mode.
    BootloaderReset,
    /// Raise the deliberate fatal fault.
    Panic,
}

/// Lifts a generic action into the indicator's action set.
pub open spec fn spec_lift_generic_c1(a: GenericAction) -> C1MinimalAction {
    match a {
        GenericAction::NoAction => C1MinimalAction::NoAction,
        GenericAction::BootloaderReset => C1MinimalAction::BootloaderReset,
        GenericAction::Panic => C1MinimalAction::Panic,
    }
}

/// The indicator handler as a state-transition function: next state, optional
/// 32-byte reply, hardware action.
pub open spec fn spec_handle_c1minimal(
    command: CommandV,
    s: C1MinimalState,
    release: u16,
    pre_release: bool,
) -> (C1MinimalState, Option<Seq<u8>>, C1MinimalAction) {
    match command {
        CommandV::IsSleeping => (
            s,
            Some(
                crate::control::reply1(
                    if s.sleeping is Sleeping {
                        1u8
                    } else {
                        0u8
                    },
                ),
            ),
            C1MinimalAction::NoAction,
        ),
        CommandV::GetBrightness => (
            s,
            Some(crate::control::reply1(s.brightness)),
            C1MinimalAction::NoAction,
        ),
        CommandV::SetBrightness(br) => (
            (C1MinimalState { brightness: br, ..s }),
            None,
            C1MinimalAction::UpdateLed,
        ),
        CommandV::GetColor => (
            s,
            Some(crate::control::reply3(s.color.r, s.color.g, s.color.b)),
            C1MinimalAction::NoAction,
        ),
        CommandV::C1MinimalCommand(C1MinimalCommand::SetColor(color)) => (
            (C1MinimalState { color: color, ..s }),
            None,
            C1MinimalAction::UpdateLed,
        ),
        _ => {
            let (reply, action) = spec_handle_generic(command, release, pre_release);
            (s, reply, spec_lift_generic_c1(action))
        },
    }
}

/// Handles one command for the minimal indicator. The caller performs the
/// returned action on the LED hardware; `release` and `pre_release` are the
/// device's release metadata for the Version reply.
pub fn handle_command_c1minimal(
    command: &Command,
    state: &mut C1MinimalState,
    release: u16,
    pre_release: bool,
) -> (r: (Option<Vec<u8>>, C1MinimalAction))
    ensures
        (*final(state), reply_view(r.0), r.1) == spec_handle_c1minimal(
            command@,
            *old(state),
            release,
            pre_release,
        ),
{
    match command {
        Command::IsSleeping => {
            let mut response = new_reply();
            response.set(
                0,
                match state.sleeping {
                    SimpleSleepState::Sleeping => 1,
                    SimpleSleepState::Awake => 0,
                },
            );
            (Some(response), C1MinimalAction::NoAction)
        },
        Command::GetBrightness => {
            let mut response = new_reply();
            response.set(0, state.brightness);
            (Some(response), C1MinimalAction::NoAction)
        },
        Command::SetBrightness(br) => {
            state.brightness = *br;
            (None, C1MinimalAction::UpdateLed)
        },
        Command::GetColor => {
            let mut response = new_reply();
            response.set(0, state.color.r);
            response.set(1, state.color.g);
            response.set(2, state.color.b);
            (Some(response), C1MinimalAction::NoAction)
        },
        Command::C1MinimalCommand(C1MinimalCommand::SetColor(color)) => {
            state.color = *color;
            (None, C1MinimalAction::UpdateLed)
        },
        _ => {
            let (reply, action) = handle_generic_command(command, release, pre_release);
            let lifted = match action {
                GenericAction::NoAction => C1MinimalAction::NoAction,
                GenericAction::BootloaderReset => C1MinimalAction::BootloaderReset,
                GenericAction::Panic => C1MinimalAction::Panic,
            };
            (reply, lifted)
        },
    }
}

} // verus!
