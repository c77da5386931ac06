//! Core logic of a small automotive ECU: turn signals, hazard lights, headlights,
//! throttle pass-through and cylinder output forwarding.
//!
//! Every input and output of the ECU is reached through a trait that the embedding
//! system implements (real GPIO on a board, or the virtual devices in [`stub`]).

pub mod engine;
pub mod input;
pub mod lighting;
pub mod stub;

use vstd::prelude::*;

use crate::engine::{engine_update, CylinderOutputs, Throttle};
use crate::input::{PedalInput, SwitchInput};
use crate::lighting::{blink_on, signal_for_time, LightController};

verus! {

/// Turn signal possible states
#[derive(PartialEq, Eq, Debug)]
pub enum Signal {
    RIGHT,
    LEFT,
    HAZARD,
    // Both turn signals off when "NONE"
    NONE,
}

/// Configuration of the ECU.
pub struct ECUSettings {
    /// Period of one blink of the turn signals, in milliseconds.
    pub signal_blink_period: u32,
}

/// All ECU state that persists across update loops
pub struct ECUState {
    /// Active turn signal mode
    sig: Signal,
    /// True if headlights are requested
    headlights: bool,
}

/// The turn signal mode selected by the left, right and hazard switches.
///
/// The hazard switch takes overall priority; left and right together are an invalid
/// request and signal nothing.
pub open spec fn next_signal(left: bool, right: bool, hazard: bool) -> Signal {
    if hazard {
        Signal::HAZARD
    } else if left && right {
        Signal::NONE
    } else if left {
        Signal::LEFT
    } else if right {
        Signal::RIGHT
    } else {
        Signal::NONE
    }
}

/// Whether the left turn lamp is lit in mode `sig` when the blinker phase is `blink`.
pub open spec fn left_lamp(sig: Signal, blink: bool) -> bool {
    match sig {
        Signal::LEFT | Signal::HAZARD => blink,
        _ => false,
    }
}

/// Whether the right turn lamp is lit in mode `sig` when the blinker phase is `blink`.
pub open spec fn right_lamp(sig: Signal, blink: bool) -> bool {
    match sig {
        Signal::RIGHT | Signal::HAZARD => blink,
        _ => false,
    }
}

/// The hazard switch overrides the turn switches: with it on, the mode is hazard whatever
/// the left and right switches say.
pub proof fn lemma_hazard_overrides(left: bool, right: bool)
    ensures
        next_signal(left, right, true) == Signal::HAZARD,
{
}

/// Left and right requested together, without hazard, is invalid: no signal is shown and
/// both turn lamps stay dark in every blinker phase.
pub proof fn lemma_conflicting_turn_request(blink: bool)
    ensures
        next_signal(true, true, false) == Signal::NONE,
        !left_lamp(next_signal(true, true, false), blink),
        !right_lamp(next_signal(true, true, false), blink),
{
}

/// A turn lamp lights only for its own direction or for hazard: the other side stays
/// dark, no signal keeps both dark, and under hazard both lamps blink together.
pub proof fn lemma_turn_lamps(sig: Signal, blink: bool)
    ensures
        sig == Signal::LEFT ==> left_lamp(sig, blink) == blink && !right_lamp(sig, blink),
        sig == Signal::RIGHT ==> right_lamp(sig, blink) == blink && !left_lamp(sig, blink),
        sig == Signal::NONE ==> !left_lamp(sig, blink) && !right_lamp(sig, blink),
        sig == Signal::HAZARD ==> left_lamp(sig, blink) == blink && right_lamp(sig, blink) == blink,
        left_lamp(sig, blink) && right_lamp(sig, blink) ==> sig == Signal::HAZARD,
        !blink ==> !left_lamp(sig, blink) && !right_lamp(sig, blink),
{
}

impl ECUState {
    /// The active turn signal mode.
    pub closed spec fn signal(&self) -> Signal {
        self.sig
    }

    /// Whether the headlights are requested.
    pub closed spec fn headlights_requested(&self) -> bool {
        self.headlights
    }

    /// No turn signal, headlights off.
    pub fn new() -> (st: ECUState)
        ensures
            st.signal() == Signal::NONE,
            !st.headlights_requested(),
    {
        ECUState { sig: Signal::NONE, headlights: false }
    }
}

/// Sets the turn signal mode and the headlight request from plain readings of the left,
/// right, hazard and headlight switches.
pub fn apply_switch_readings(
    ecu_state: &mut ECUState,
    l_switch: bool,
    r_switch: bool,
    h_switch: bool,
    headlight: bool,
)
    ensures
        final(ecu_state).signal() == next_signal(l_switch, r_switch, h_switch),
        final(ecu_state).headlights_requested() == headlight,
{
    // Turn signals
    if h_switch {
        // Hazzard switch takes overall priority
        ecu_state.sig = Signal::HAZARD;
    } else if l_switch && r_switch {
        // This state is invalid - no light should be signaled
        ecu_state.sig = Signal::NONE;
    } else if l_switch {
        ecu_state.sig = Signal::LEFT;
    } else if r_switch {
        ecu_state.sig = Signal::RIGHT;
    } else {
        ecu_state.sig = Signal::NONE;
    }

    // Headlights
    ecu_state.headlights = headlight;
}

/// Reads the signal and headlight switches, each once, into the ECU state.
fn ecu_update_state(
    ecu_state: &mut ECUState,
    l_sig_switch: &impl SwitchInput,
    r_sig_switch: &impl SwitchInput,
    h_sig_switch: &impl SwitchInput,
    headlights: &impl SwitchInput,
)
    ensures
        final(ecu_state).signal() == next_signal(
            l_sig_switch.switch_on(),
            r_sig_switch.switch_on(),
            h_sig_switch.switch_on(),
        ),
        final(ecu_state).headlights_requested() == headlights.switch_on(),
{
    let l_switch = l_sig_switch.read_switch();
    let r_switch = r_sig_switch.read_switch();
    let h_switch = h_sig_switch.read_switch();
    let headlight = headlights.read_switch();
    apply_switch_readings(ecu_state, l_switch, r_switch, h_switch, headlight);
}

/// The (left, right) turn lamp values for signal mode `sig` in blinker phase `blink`.
pub fn turn_lamps(sig: &Signal, blink: bool) -> (lamps: (bool, bool))
    ensures
        lamps.0 == left_lamp(*sig, blink),
        lamps.1 == right_lamp(*sig, blink),
{
    match sig {
        Signal::RIGHT => (false, blink),
        Signal::LEFT => (blink, false),
        Signal::HAZARD => (blink, blink),
        // Both signals should be off
        Signal::NONE => (false, false),
    }
}

/// Drives the two turn lamps for the active signal mode and blinker phase, writing each
/// lamp once, left first.
fn ecu_update_turn_signals(
    ecu_state: &mut ECUState,
    l_signal: &mut impl LightController,
    r_signal: &mut impl LightController,
    blink: bool,
)
    ensures
        *final(ecu_state) == *old(ecu_state),
        final(l_signal).light_on() == left_lamp(old(ecu_state).signal(), blink),
        final(r_signal).light_on() == right_lamp(old(ecu_state).signal(), blink),
        final(l_signal).light_writes() == old(l_signal).light_writes().push(
            left_lamp(old(ecu_state).signal(), blink),
        ),
        final(r_signal).light_writes() == old(r_signal).light_writes().push(
            right_lamp(old(ecu_state).signal(), blink),
        ),
{
    let (left, right) = turn_lamps(&ecu_state.sig, blink);
    l_signal.set_light(left);
    r_signal.set_light(right);
}

/// Primary function of this library - called periodically to run the ECU
///
/// `cylinder_states` is the spark pattern for the crank angle that the crank sensor
/// reported this loop (index 0 is cylinder 1). The clock `get_time_ms` is read once, after
/// the switches; the turn lamps follow the blinker phase at the time it returned. Each
/// output (cylinders, throttle, headlights, both turn lamps) is written exactly once.
pub fn ecu_update(
    get_time_ms: impl Fn() -> u64,
    cylinder_states: [bool; 4],
    c_outputs: &mut impl CylinderOutputs,
    throttle: &mut impl Throttle,
    l_turn: &mut impl LightController,
    r_turn: &mut impl LightController,
    headlights: &mut impl LightController,
    l_switch: &mut impl SwitchInput,
    r_switch: &mut impl SwitchInput,
    h_switch: &mut impl SwitchInput,
    headlight_switch: &mut impl SwitchInput,
    accel_pedal: &mut impl PedalInput,
    ecu_state: &mut ECUState,
    ecu_settings: &ECUSettings,
)
    requires
        ecu_settings.signal_blink_period > 0,
        call_requires(get_time_ms, ()),
    ensures
        // engine
        final(c_outputs).cylinder_states() == cylinder_states,
        final(throttle).throttle_position() == old(accel_pedal).pedal_position(),
        final(c_outputs).cylinder_writes() == old(c_outputs).cylinder_writes().push(
            cylinder_states,
        ),
        final(throttle).throttle_writes() == old(throttle).throttle_writes().push(
            old(accel_pedal).pedal_position(),
        ),
        // state
        final(ecu_state).signal() == next_signal(
            old(l_switch).switch_on(),
            old(r_switch).switch_on(),
            old(h_switch).switch_on(),
        ),
        final(ecu_state).headlights_requested() == old(headlight_switch).switch_on(),
        // lamps
        final(headlights).light_on() == old(headlight_switch).switch_on(),
        final(headlights).light_writes() == old(headlights).light_writes().push(
            old(headlight_switch).switch_on(),
        ),
        exists|ts: u64|
            {
                let blink = blink_on(ts, ecu_settings.signal_blink_period);
                let left = left_lamp(final(ecu_state).signal(), blink);
                let right = right_lamp(final(ecu_state).signal(), blink);
                &&& #[trigger] call_ensures(get_time_ms, (), ts)
                &&& final(l_turn).light_on() == left
                &&& final(r_turn).light_on() == right
                &&& final(l_turn).light_writes() == old(l_turn).light_writes().push(left)
                &&& final(r_turn).light_writes() == old(r_turn).light_writes().push(right)
            },
        // inputs are only read
        *final(l_switch) == *old(l_switch),
        *final(r_switch) == *old(r_switch),
        *final(h_switch) == *old(h_switch),
        *final(headlight_switch) == *old(headlight_switch),
        *final(accel_pedal) == *old(accel_pedal),
{
    engine_update(cylinder_states, c_outputs, throttle, accel_pedal);

    // Updates the ECU state with button/switch input collected from the embedded system
    ecu_update_state(ecu_state, l_switch, r_switch, h_switch, headlight_switch);

    let ts = get_time_ms();
    // Current blink state, used for either left or right turn signal
    // This is super cheap to calculate, so no harm doing it every loop
    let blink = signal_for_time(ts, ecu_settings.signal_blink_period);

    // Handle headlights
    headlights.set_light(ecu_state.headlights);

    // Handle Turn Signals
    ecu_update_turn_signals(ecu_state, l_turn, r_turn, blink);
}

} // verus!
