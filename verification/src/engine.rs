//! Engine monitoring and control logic

use vstd::prelude::*;

use crate::input::PedalInput;

verus! {

/// Defines cylinder outputs to spark
pub trait CylinderOutputs {
    /// The spark state last applied to each cylinder; index 0 is cylinder 1. An
    /// implementation that does not define it leaves it unknown, and then cannot meet the
    /// contract of `set_all`.
    closed spec fn cylinder_states(&self) -> [bool; 4] {
        vstd::pervasive::arbitrary()
    }

    /// Every pattern written with `set_all` so far, oldest first. An implementation that
    /// does not define it leaves it unknown, and then cannot meet the contract of `set_all`.
    closed spec fn cylinder_writes(&self) -> Seq<[bool; 4]> {
        vstd::pervasive::arbitrary()
    }

    /// Set the state of each cylinder's spark plug
    ///
    /// The index of the array corresponds to the cylinder number - 1. i.e. index 0 is cylinder 1
    fn set_all(&mut self, states: [bool; 4])
        ensures
            final(self).cylinder_states() == states,
            final(self).cylinder_writes() == old(self).cylinder_writes().push(states),
    ;
}

/// An electronically driven throttle body.
pub trait Throttle {
    /// The throttle opening last commanded, 0 closed, 255 fully open. An implementation
    /// that does not define it leaves it unknown, and then cannot meet the contract of
    /// `set_throttle`.
    closed spec fn throttle_position(&self) -> u8 {
        vstd::pervasive::arbitrary()
    }

    /// Every opening written with `set_throttle` so far, oldest first. An implementation
    /// that does not define it leaves it unknown, and then cannot meet the contract of
    /// `set_throttle`.
    closed spec fn throttle_writes(&self) -> Seq<u8> {
        vstd::pervasive::arbitrary()
    }

    /// Sets the throttle to a value between closed and full open mapped to the range [0,255] with
    /// 0 being fully closed, and 255 being fully open.
    fn set_throttle(&mut self, value: u8)
        ensures
            final(self).throttle_position() == value,
            final(self).throttle_writes() == old(self).throttle_writes().push(value),
    ;
}

/// Applies the spark pattern for the current crank position to the cylinder outputs, and
/// passes the accelerator pedal request to the throttle.
///
/// `states` is the pattern of lit cylinders for the crank angle that the sensor reported
/// (index 0 is cylinder 1). The pedal request is not filtered: the throttle is set to
/// whatever the pedal reads.
pub fn engine_update(
    states: [bool; 4],
    outputs: &mut impl CylinderOutputs,
    throttle: &mut impl Throttle,
    accel_pedal: &impl PedalInput,
)
    ensures
        final(outputs).cylinder_states() == states,
        final(throttle).throttle_position() == accel_pedal.pedal_position(),
        // each output is written exactly once
        final(outputs).cylinder_writes() == old(outputs).cylinder_writes().push(states),
        final(throttle).throttle_writes() == old(throttle).throttle_writes().push(
            accel_pedal.pedal_position(),
        ),
{
    outputs.set_all(states);

    // Process the pedal request - no filtering for now, just set the throttle to whatever
    // the pedal is.
    throttle.set_throttle(accel_pedal.read_pedal());
}

/// Throttle actuator of the board: it records the commanded opening until a real
/// actuator is wired up.
pub struct HwThrottle {
    val: u8,
    writes: Ghost<Seq<u8>>,
}

impl HwThrottle {
    /// A closed throttle.
    pub fn new() -> (t: HwThrottle)
        ensures
            t.throttle_position() == 0,
            t.throttle_writes() == Seq::<u8>::empty(),
    {
        HwThrottle { val: 0, writes: Ghost(Seq::empty()) }
    }

    /// Returns the positon of the throttle as a proportion [0,255]
    pub fn get_throttle_pos(&self) -> (pos: u8)
        ensures
            pos == self.throttle_position(),
    {
        self.val
    }
}

impl Throttle for HwThrottle {
    closed spec fn throttle_position(&self) -> u8 {
        self.val
    }

    closed spec fn throttle_writes(&self) -> Seq<u8> {
        self.writes@
    }

    fn set_throttle(&mut self, value: u8) {
        self.val = value;
        self.writes = Ghost(self.writes@.push(value));
    }
}

} // verus!
