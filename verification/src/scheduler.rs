//! The sleep/wake arbiter, the power state machine and the timing decisions
//! of the cooperative scheduler loop.
//!
//! The loop itself lives with the caller, which owns the transport, the
//! timer, the random source and the LED hardware: every decision the loop
//! takes is a function here, and the power state machine returns the action
//! the caller must perform (power lines, fade steps, glyph rendering).

use crate::control::Command;
use crate::matrix::{LedmatrixState, LedmatrixStateV, SleepReason, SleepState, SleepStateV};
use crate::patterns::{display_sleep_reason, sleep_glyph_grid};
use vstd::prelude::*;

verus! {

/// How the visible sleep transition is performed.
#[derive(Copy, Clone, PartialEq, Eq, Structural, Debug)]
pub enum SleepMode {
    /// Instantly turn the LEDs on or off.
    Instant,
    /// Fade brightness out and in slowly when sleeping or waking.
    Fading,
    /// Show the sleep reason instead of turning the LEDs off.
    Debug,
}

/// Static configuration of the sleep transition; the debug strap overrides
/// it at run time.
pub const SLEEP_MODE: SleepMode = SleepMode::Fading;

/// Go to sleep after five minutes awake, in microsecond timer ticks.
pub const SLEEP_TIMEOUT: u64 = 300_000_000;

/// The sleep mode in force: the hardware debug strap wins over the static
/// configuration.
pub open spec fn spec_dyn_sleep_mode(debug_mode: bool) -> SleepMode {
    if debug_mode {
        SleepMode::Debug
    } else {
        SLEEP_MODE
    }
}

/// The sleep mode in force for this state.
pub fn dyn_sleep_mode(state: &LedmatrixState) -> (r: SleepMode)
    ensures
        r == spec_dyn_sleep_mode(state@.debug_mode),
{
    if state.debug_mode {
        SleepMode::Debug
    } else {
        SLEEP_MODE
    }
}

/// Whether the sleep transition runs in debug mode.
pub fn debug_mode(state: &LedmatrixState) -> (r: bool)
    ensures
        r == (spec_dyn_sleep_mode(state@.debug_mode) is Debug),
{
    matches!(dyn_sleep_mode(state), SleepMode::Debug)
}

/// The arbiter's rule for one signal source: a source that does not request
/// sleep clears the active reason; a redundant re-assertion (same reason as
/// before, or no edge on the signal) keeps the active reason; anything else
/// adopts the candidate reason.
pub open spec fn spec_assign_sleep_reason(
    previous: Option<SleepReason>,
    current: Option<SleepReason>,
    need_sleep: bool,
    signal_changed: bool,
    new_reason: SleepReason,
) -> Option<SleepReason> {
    if !need_sleep {
        None
    } else if current is Some && (Some(new_reason) == previous || !signal_changed) {
        current
    } else {
        Some(new_reason)
    }
}

/// Evaluates one sleep signal source against the active reason.
pub fn assign_sleep_reason(
    previous: Option<SleepReason>,
    current: Option<SleepReason>,
    need_sleep: bool,
    signal_changed: bool,
    new_reason: SleepReason,
) -> (r: Option<SleepReason>)
    ensures
        r == spec_assign_sleep_reason(previous, current, need_sleep, signal_changed, new_reason),
{
    if !need_sleep {
        None
    } else if current.is_some() && (Some(new_reason) == previous || !signal_changed) {
        current
    } else {
        Some(new_reason)
    }
}

/// Once a reason is active, re-evaluating the same unchanged signal does not
/// alter it: a source whose signal has not edged, or that re-asserts the
/// reason already adopted on the previous tick, keeps the active reason.
pub proof fn lemma_arbiter_idempotent(
    previous: Option<SleepReason>,
    current: Option<SleepReason>,
    reason: SleepReason,
)
    requires
        current is Some,
        previous == Some(reason) || previous == current,
    ensures
        spec_assign_sleep_reason(previous, current, true, false, reason) == current,
        previous == Some(reason) ==> spec_assign_sleep_reason(previous, current, true, true, reason)
            == current,
{
}

/// Within one tick, a source evaluated later overrides an earlier one: a
/// changed signal that requests sleep with a reason not adopted on the
/// previous tick replaces whatever an earlier source wrote this tick.
pub proof fn lemma_arbiter_later_source_overrides(
    previous: Option<SleepReason>,
    current: Option<SleepReason>,
    reason: SleepReason,
)
    requires
        previous != Some(reason),
    ensures
        spec_assign_sleep_reason(previous, current, true, true, reason) == Some(reason),
{
}

/// A source that does not request sleep clears the active reason entirely,
/// whatever it was.
pub proof fn lemma_arbiter_wake_clears(
    previous: Option<SleepReason>,
    current: Option<SleepReason>,
    signal_changed: bool,
    reason: SleepReason,
)
    ensures
        spec_assign_sleep_reason(previous, current, false, signal_changed, reason) is None,
{
}

/// The sleep signals one scheduler tick evaluates, with their previous-tick
/// values where an edge matters.
#[derive(Copy, Clone, PartialEq, Eq, Structural, Debug)]
pub struct SleepSignals {
    /// Whether the sleep pin is wired on this board revision.
    pub sleep_present: bool,
    /// Host sleep-pin level this tick (asserted = host sleeping).
    pub host_sleeping: bool,
    /// Host sleep-pin level on the previous tick.
    pub last_host_sleep: bool,
    /// Whether USB completed its first configuration.
    pub usb_initialized: bool,
    /// USB suspend state this tick.
    pub usb_suspended: bool,
    /// USB suspend state on the previous tick.
    pub last_usb_suspended: bool,
    /// Whether the inactivity timeout has elapsed since the last qualifying
    /// event.
    pub timed_out: bool,
}

/// One tick of the arbiter over the periodic sources, in the fixed order
/// sleep pin, USB suspend, timeout, so a later source can override an
/// earlier one. A source that is neither asserting nor edged is not
/// evaluated at all, lest it clear a reason set by a different, still-active
/// source; the timeout is only ever evaluated while it is asserting, and
/// never in debug mode.
pub open spec fn spec_evaluate_sleep_signals(
    last_reason: Option<SleepReason>,
    current: Option<SleepReason>,
    signals: SleepSignals,
    debug_mode: bool,
) -> Option<SleepReason> {
    let after_pin = if signals.sleep_present && (signals.host_sleeping != signals.last_host_sleep
        || signals.host_sleeping) {
        spec_assign_sleep_reason(
            last_reason,
            current,
            signals.host_sleeping,
            signals.host_sleeping != signals.last_host_sleep,
            SleepReason::SleepPin,
        )
    } else {
        current
    };
    let after_usb = if signals.usb_initialized && (signals.usb_suspended
        != signals.last_usb_suspended || signals.usb_suspended) {
        spec_assign_sleep_reason(
            last_reason,
            after_pin,
            signals.usb_suspended,
            signals.usb_suspended != signals.last_usb_suspended,
            SleepReason::UsbSuspend,
        )
    } else {
        after_pin
    };
    if signals.timed_out && !debug_mode {
        spec_assign_sleep_reason(last_reason, after_usb, true, true, SleepReason::Timeout)
    } else {
        after_usb
    }
}

/// Re-evaluates the periodic sleep signals for one scheduler tick.
/// `last_reason` is the reason that was active when the previous tick ended.
pub fn evaluate_sleep_signals(
    last_reason: Option<SleepReason>,
    current: Option<SleepReason>,
    signals: SleepSignals,
    debug_mode: bool,
) -> (r: Option<SleepReason>)
    ensures
        r == spec_evaluate_sleep_signals(last_reason, current, signals, debug_mode),
{
    let mut reason = current;
    if signals.sleep_present {
        let host_sleep_changed = signals.host_sleeping != signals.last_host_sleep;
        // Evaluate only if the pin has edged or is asserting; otherwise sleep
        // is controlled by timing or by command.
        if host_sleep_changed || signals.host_sleeping {
            reason = assign_sleep_reason(
                last_reason,
                reason,
                signals.host_sleeping,
                host_sleep_changed,
                SleepReason::SleepPin,
            );
        }
    }
    let usb_suspended_changed = signals.usb_suspended != signals.last_usb_suspended;
    // Only once USB has been configured: the host suspends the device before
    // its first configuration, and that must not look like sleep.
    if signals.usb_initialized && (usb_suspended_changed || signals.usb_suspended) {
        reason = assign_sleep_reason(
            last_reason,
            reason,
            signals.usb_suspended,
            usb_suspended_changed,
            SleepReason::UsbSuspend,
        );
    }
    if signals.timed_out && !debug_mode {
        reason = assign_sleep_reason(last_reason, reason, true, true, SleepReason::Timeout);
    }
    reason
}

/// The sleep reason after a command arrives: an explicit Sleep command is
/// arbitrated like a signal edge, and any other command wakes the device.
pub open spec fn spec_sleep_reason_after_command(
    command: crate::control::CommandV,
    last_reason: Option<SleepReason>,
    current: Option<SleepReason>,
) -> Option<SleepReason> {
    match command {
        crate::control::CommandV::Sleep(go_sleeping) => spec_assign_sleep_reason(
            last_reason,
            current,
            go_sleeping,
            true,
            SleepReason::Command,
        ),
        _ => None,
    }
}

/// Updates the sleep reason for an incoming command: a Sleep command is
/// arbitrated; every other command wakes the device, which spares the host a
/// wake-up command before each interaction.
pub fn sleep_reason_after_command(
    command: &Command,
    last_reason: Option<SleepReason>,
    current: Option<SleepReason>,
) -> (r: Option<SleepReason>)
    ensures
        r == spec_sleep_reason_after_command(command@, last_reason, current),
{
    if let Command::Sleep(go_sleeping) = command {
        assign_sleep_reason(last_reason, current, *go_sleeping, true, SleepReason::Command)
    } else {
        None
    }
}

/// The captured brightness after an incoming command: setting the brightness
/// while asleep retargets the brightness that will be restored on wake, so a
/// wake caused by the same command fades up to the new value.
pub open spec fn spec_retarget_captured(
    command: crate::control::CommandV,
    sleep_state: SleepStateV,
) -> SleepStateV {
    match (sleep_state, command) {
        (
            SleepStateV::Sleeping(grid, _),
            crate::control::CommandV::SetBrightness(new_brightness),
        ) => SleepStateV::Sleeping(grid, new_brightness),
        _ => sleep_state,
    }
}

/// Retargets the captured brightness when a SetBrightness command arrives
/// while the module sleeps.
pub fn retarget_captured_brightness(command: &Command, state: &mut LedmatrixState)
    ensures
        final(state)@ == (LedmatrixStateV {
            sleep_state: spec_retarget_captured(command@, old(state)@.sleep_state),
            ..old(state)@
        }),
{
    if let SleepState::Sleeping((grid, _)) = &state.sleep_state {
        if let Command::SetBrightness(new_brightness) = command {
            let captured = grid.clone();
            state.sleep_state = SleepState::Sleeping((captured, *new_brightness));
        }
    }
}

/// The USB device states the loop reads back from the USB stack after each
/// poll.
#[derive(Copy, Clone, PartialEq, Eq, Structural, Debug)]
pub enum UsbDeviceStatus {
    /// The device has just been created or reset.
    Default,
    /// The device has received an address from the host.
    Addressed,
    /// Configured and fully operational.
    Configured,
    /// Suspended by the host; reported only when the poll found no data.
    Suspend,
}

/// The USB flags after one poll of the stack: `usb_initialized` remembers
/// that the device was configured once, and `usb_suspended` follows the
/// suspend state.
pub open spec fn spec_usb_flags_after_poll(
    polled: bool,
    status: UsbDeviceStatus,
    usb_initialized: bool,
) -> (bool, bool) {
    match status {
        UsbDeviceStatus::Default => (false, false),
        UsbDeviceStatus::Addressed => (false, false),
        UsbDeviceStatus::Configured => (true, false),
        UsbDeviceStatus::Suspend => (usb_initialized, true),
    }
}

/// Updates the USB bookkeeping flags after one poll. The stack reports the
/// suspend state only from a poll that found no data, so that combination is
/// ruled out here, as the loop asserts it.
pub fn usb_flags_after_poll(polled: bool, status: UsbDeviceStatus, usb_initialized: bool) -> (r: (
    bool,
    bool,
))
    requires
        !(polled && status is Suspend),
    ensures
        r == spec_usb_flags_after_poll(polled, status, usb_initialized),
{
    match status {
        UsbDeviceStatus::Default | UsbDeviceStatus::Addressed => (false, false),
        UsbDeviceStatus::Configured => (true, false),
        UsbDeviceStatus::Suspend => (usb_initialized, true),
    }
}

/// Cancels a pending startup animation: any incoming command replaces it
/// outright, so a very early command is never painted over.
pub fn cancel_startup_animation(state: &mut LedmatrixState)
    ensures
        final(state)@ == (LedmatrixStateV { upcoming_frames: None, ..old(state)@ }),
{
    state.upcoming_frames = None;
}

/// What the caller must do to the hardware after a power transition.
#[derive(Copy, Clone, PartialEq, Eq, Structural, Debug)]
pub enum PowerAction {
    /// Nothing: the state machine did not move.
    Stay,
    /// The module just fell asleep. With `fade` set, step the LED scaling
    /// down from `fade_from` to zero before the rest. With `show_glyph` set,
    /// render the grid (now the reason glyph); otherwise drive the LED
    /// enable line low to power the controller down.
    EnterSleep { fade: bool, fade_from: u8, show_glyph: bool },
    /// Still asleep in debug mode: re-render the grid, which now shows the
    /// latest reason's glyph.
    RefreshGlyph,
    /// The module just woke. Render the restored grid; with `power_on` set,
    /// drive the LED enable line high again; with `fade` set, step the LED
    /// scaling up from zero to `fade_to`.
    Wake { fade: bool, fade_to: u8, power_on: bool },
}

/// The power state machine: the state after `handle_sleep` and the hardware
/// action the caller owes.
pub open spec fn spec_handle_sleep(
    reason: Option<SleepReason>,
    s: LedmatrixStateV,
) -> (LedmatrixStateV, PowerAction) {
    let mode = spec_dyn_sleep_mode(s.debug_mode);
    match (s.sleep_state, reason) {
        (SleepStateV::Awake, None) => (s, PowerAction::Stay),
        (SleepStateV::Awake, Some(r)) => (
            (LedmatrixStateV {
                sleep_state: SleepStateV::Sleeping(s.grid, s.brightness),
                brightness: if mode is Fading {
                    0
                } else {
                    s.brightness
                },
                grid: if mode is Debug {
                    sleep_glyph_grid(r)
                } else {
                    s.grid
                },
                ..s
            }),
            PowerAction::EnterSleep {
                fade: mode is Fading,
                fade_from: s.brightness,
                show_glyph: mode is Debug,
            },
        ),
        (SleepStateV::Sleeping(_, _), Some(r)) => if mode is Debug {
            (
                (LedmatrixStateV { grid: sleep_glyph_grid(r), ..s }),
                PowerAction::RefreshGlyph,
            )
        } else {
            (s, PowerAction::Stay)
        },
        (SleepStateV::Sleeping(grid, brightness), None) => (
            (LedmatrixStateV {
                sleep_state: SleepStateV::Awake,
                grid: grid,
                brightness: if mode is Fading {
                    brightness
                } else {
                    s.brightness
                },
                ..s
            }),
            PowerAction::Wake {
                fade: mode is Fading,
                fade_to: brightness,
                power_on: !(mode is Debug),
            },
        ),
    }
}

/// Drives the transition between awake and sleeping. Does nothing if the
/// module is already in the right state. Entering sleep captures the grid
/// and brightness; leaving it consumes the captured pair exactly once and
/// restores both. The caller performs the returned action: the fade steps,
/// the LED enable line and the rendering are its part.
pub fn handle_sleep(reason: Option<SleepReason>, state: &mut LedmatrixState) -> (action:
    PowerAction)
    requires
        old(state).wf(),
    ensures
        final(state)@ == spec_handle_sleep(reason, old(state)@).0,
        action == spec_handle_sleep(reason, old(state)@).1,
        final(state).wf(),
{
    let is_awake = state.sleep_state.is_awake();
    match (is_awake, reason) {
        // Awake and staying awake.
        (true, None) => PowerAction::Stay,
        (true, Some(sleep_reason)) => {
            let captured = state.grid.clone();
            let fade_from = state.brightness;
            state.sleep_state = SleepState::Sleeping((captured, fade_from));
            let mode = dyn_sleep_mode(state);
            if let SleepMode::Fading = mode {
                // The caller steps the hardware brightness down; the state
                // ends at the fade's destination.
                state.brightness = 0;
            }
            let show_glyph = matches!(mode, SleepMode::Debug);
            if show_glyph {
                state.grid = display_sleep_reason(sleep_reason);
            }
            PowerAction::EnterSleep {
                fade: matches!(mode, SleepMode::Fading),
                fade_from,
                show_glyph,
            }
        },
        // Already sleeping and a reason is still active: keep sleeping, but
        // in debug mode make sure the latest reason is the one displayed.
        (false, Some(sleep_reason)) => {
            if debug_mode(state) {
                state.grid = display_sleep_reason(sleep_reason);
                PowerAction::RefreshGlyph
            } else {
                PowerAction::Stay
            }
        },
        // Sleeping and no reason left: wake up.
        (false, None) => {
            let mut taken = SleepState::Awake;
            core::mem::swap(&mut state.sleep_state, &mut taken);
            match taken {
                SleepState::Sleeping((grid, old_brightness)) => {
                    // Restore the grid captured when sleep began.
                    state.grid = grid;
                    let mode = dyn_sleep_mode(state);
                    if let SleepMode::Fading = mode {
                        // The caller steps the hardware brightness up to the
                        // captured value; the state ends at the target.
                        state.brightness = old_brightness;
                    }
                    PowerAction::Wake {
                        fade: matches!(mode, SleepMode::Fading),
                        fade_to: old_brightness,
                        power_on: !matches!(mode, SleepMode::Debug),
                    }
                },
                SleepState::Awake => {
                    // Unreachable: the state machine was sleeping.
                    PowerAction::Stay
                },
            }
        },
    }
}

/// Entering sleep and then waking with no active reason restores exactly
/// the grid and brightness captured at sleep entry, for any grid content,
/// any brightness and any sleep mode, and leaves the module awake: the
/// captured pair is consumed by the wake.
pub proof fn lemma_sleep_wake_roundtrip(s: LedmatrixStateV, reason: SleepReason)
    requires
        s.sleep_state is Awake,
    ensures
        ({
            let (s1, enter) = spec_handle_sleep(Some(reason), s);
            let (s2, wake) = spec_handle_sleep(None, s1);
            &&& s1.sleep_state == SleepStateV::Sleeping(s.grid, s.brightness)
            &&& s2.sleep_state is Awake
            &&& s2.grid == s.grid
            &&& s2.brightness == s.brightness
        }),
{
}

/// While asleep, a still-active reason never alters the captured pair, so
/// the eventual wake still restores the state at sleep entry, however often
/// the reason is re-asserted or changes.
pub proof fn lemma_sleeping_keeps_capture(s: LedmatrixStateV, reason: SleepReason)
    requires
        s.sleep_state is Sleeping,
    ensures
        spec_handle_sleep(Some(reason), s).0.sleep_state == s.sleep_state,
{
}

/// One step of the downward brightness fade: five units at a time, stopping
/// exactly at zero.
pub open spec fn spec_fade_down_step(brightness: u8) -> u8 {
    if brightness <= 5 {
        0u8
    } else {
        (brightness - 5) as u8
    }
}

/// One step of the upward brightness fade: five units at a time, stopping
/// exactly at the target.
pub open spec fn spec_fade_up_step(brightness: u8, target: u8) -> u8 {
    if target - brightness <= 5 {
        target
    } else {
        (brightness + 5) as u8
    }
}

/// The brightness values of the downward fade, from one step below `from`
/// to zero inclusive.
pub open spec fn spec_fade_down_steps(from: u8) -> Seq<u8>
    decreases from,
{
    if from == 0 {
        seq![]
    } else {
        seq![spec_fade_down_step(from)] + spec_fade_down_steps(spec_fade_down_step(from))
    }
}

/// The brightness values the caller applies, with a fixed delay between
/// steps, when fading out; the last one is zero.
pub fn fade_down_steps(from: u8) -> (steps: Vec<u8>)
    ensures
        steps@ == spec_fade_down_steps(from),
        from > 0 ==> steps@.len() > 0 && steps@.last() == 0,
{
    let mut steps: Vec<u8> = Vec::new();
    let mut brightness = from;
    while brightness > 0
        invariant
            spec_fade_down_steps(from) == steps@ + spec_fade_down_steps(brightness),
            steps@.len() > 0 ==> steps@.last() == brightness,
        decreases brightness,
    {
        brightness = if brightness <= 5 {
            0
        } else {
            brightness - 5
        };
        steps.push(brightness);
        assert(spec_fade_down_steps(from) =~= steps@ + spec_fade_down_steps(brightness));
    }
    steps
}

/// The brightness values of the upward fade, from one step above `from` to
/// `target` inclusive.
pub open spec fn spec_fade_up_steps(from: u8, target: u8) -> Seq<u8>
    decreases target - from,
{
    if from >= target {
        seq![]
    } else {
        seq![spec_fade_up_step(from, target)] + spec_fade_up_steps(
            spec_fade_up_step(from, target),
            target,
        )
    }
}

/// The brightness values the caller applies, with a fixed delay between
/// steps, when fading in from zero; the last one is the captured target.
pub fn fade_up_steps(target: u8) -> (steps: Vec<u8>)
    ensures
        steps@ == spec_fade_up_steps(0, target),
        target > 0 ==> steps@.len() > 0 && steps@.last() == target,
{
    let mut steps: Vec<u8> = Vec::new();
    let mut brightness: u8 = 0;
    while brightness < target
        invariant
            brightness <= target,
            spec_fade_up_steps(0, target) == steps@ + spec_fade_up_steps(brightness, target),
            steps@.len() > 0 ==> steps@.last() == brightness,
        decreases target - brightness,
    {
        brightness = if target - brightness <= 5 {
            target
        } else {
            brightness + 5
        };
        steps.push(brightness);
        assert(spec_fade_up_steps(0, target) =~= steps@ + spec_fade_up_steps(brightness, target));
    }
    steps
}

/// Microsecond pause between two fade steps.
pub const FADE_STEP_DELAY_US: u64 = 100_000;

/// The cadence of the active game's steps, in microsecond ticks: Pong
/// speeds up with its speed counter, the others are fixed.
pub open spec fn spec_game_step_period(game: Option<crate::matrix::GameState>) -> u64 {
    match game {
        Some(crate::matrix::GameState::Pong(pong_state)) => (100_000 - 5_000 * pong_state.speed
            as int) as u64,
        _ => 500_000u64,
    }
}

/// How many timer ticks must elapse between two steps of the active game.
/// Pong speeds up as its speed counter grows; the counter stays within the
/// twenty steps that bring the period to zero.
pub fn game_step_period(game: &Option<crate::matrix::GameState>) -> (r: u64)
    requires
        (match game {
            Some(crate::matrix::GameState::Pong(p)) => p.speed <= 20,
            _ => true,
        }),
    ensures
        r == spec_game_step_period(*game),
{
    match game {
        Some(crate::matrix::GameState::Pong(pong_state)) => 100_000 - 5_000 * pong_state.speed,
        _ => 500_000,
    }
}

/// Whether the periodic display update is due.
pub fn render_due(now: u64, animation_timer: u64, animation_period: u64) -> (r: bool)
    requires
        animation_timer + animation_period <= u64::MAX,
    ensures
        r == (now > animation_timer + animation_period),
{
    now > animation_timer + animation_period
}

/// Whether the inactivity timeout has elapsed.
pub fn sleep_timeout_elapsed(now: u64, sleep_timer: u64) -> (r: bool)
    requires
        sleep_timer + SLEEP_TIMEOUT <= u64::MAX,
    ensures
        r == (now > sleep_timer + SLEEP_TIMEOUT),
{
    now > sleep_timer + SLEEP_TIMEOUT
}

/// The grid one animation tick shows, before any auto-scroll shift: the next
/// stand-in frame while frames remain, the ready screen when the animation
/// has run out, and the grid as it was when no animation is pending.
pub open spec fn spec_animation_frame(s: LedmatrixStateV) -> Seq<Seq<u8>> {
    match s.upcoming_frames {
        Some(a) => if a.frames_remaining > 0 {
            crate::patterns::percentage_grid(
                if a.frames_remaining - 1 > 100 {
                    100int
                } else {
                    a.frames_remaining - 1
                },
            )
        } else {
            crate::patterns::rows_grid(
                Seq::new(crate::matrix::HEIGHT as nat, |y: int| crate::patterns::lotus2_row(y)),
            )
        },
        None => s.grid,
    }
}

/// The animation tick while awake: the next pending frame is shown if one
/// remains; an exhausted animation gives way to the ready screen; then
/// auto-scroll shifts every column down one cell. The frames and the ready
/// screen come from stand-in renderers with fixed, fully specified content.
pub fn advance_animation(state: &mut LedmatrixState)
    requires
        old(state).wf(),
    ensures
        final(state).wf(),
        final(state)@.auto_scroll == old(state)@.auto_scroll,
        final(state)@.brightness == old(state)@.brightness,
        final(state)@.sleep_state == old(state)@.sleep_state,
        final(state)@.game == old(state)@.game,
        final(state)@.animation_period == old(state)@.animation_period,
        final(state)@.pwm_freq == old(state)@.pwm_freq,
        final(state)@.debug_mode == old(state)@.debug_mode,
        final(state)@.col_buffer == old(state)@.col_buffer,
        (match old(state)@.upcoming_frames {
            Some(a) => if a.frames_remaining > 0 {
                final(state)@.upcoming_frames == Some(
                    crate::matrix::Animation { frames_remaining: (a.frames_remaining - 1) as u32 },
                )
            } else {
                final(state)@.upcoming_frames == old(state)@.upcoming_frames
            },
            None => final(state)@.upcoming_frames == old(state)@.upcoming_frames,
        }),
        !old(state)@.auto_scroll ==> final(state)@.grid == spec_animation_frame(old(state)@),
        old(state)@.auto_scroll ==> forall|x: int, y: int|
            0 <= x < crate::matrix::WIDTH && 0 <= y < crate::matrix::HEIGHT
                ==> final(state)@.grid[x][y] == spec_animation_frame(old(state)@)[x][(y
                + crate::matrix::HEIGHT - 1) % (crate::matrix::HEIGHT as int)],
{
    let next = match &state.upcoming_frames {
        Some(animation) => {
            if animation.frames_remaining > 0 {
                Some(animation.frames_remaining - 1)
            } else {
                None
            }
        },
        None => None,
    };
    match next {
        Some(remaining) => {
            // One more frame of the pending animation.
            state.upcoming_frames = Some(crate::matrix::Animation { frames_remaining: remaining });
            state.grid = crate::patterns::percentage(
                if remaining > 100 {
                    100u16
                } else {
                    remaining as u16
                },
            );
        },
        None => {
            if state.upcoming_frames.is_some() {
                // The animation is over: show the ready screen.
                state.grid = crate::patterns::display_lotus2();
            }
        },
    }
    assert(state@.grid == spec_animation_frame(old(state)@));
    if state.auto_scroll {
        state.grid.rotate(1);
    }
}

} // verus!
