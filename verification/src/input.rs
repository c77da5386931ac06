//! Defines input logic to the ECU, such as switches, buttons, and throttle

use vstd::prelude::*;

verus! {

/// Generic switch input, either on or off
pub trait SwitchInput {
    /// Whether the switch is closed (on). An implementation that does not define it
    /// leaves it unknown, and then cannot meet the contract of `read_switch`.
    closed spec fn switch_on(&self) -> bool {
        vstd::pervasive::arbitrary()
    }

    /// Returns the current state of the switch by either reading form hardware, or a cached value.
    fn read_switch(&self) -> (on: bool)
        ensures
            on == self.switch_on(),
    ;
}

/// A pedal (accelerator or brake) read as a proportion.
pub trait PedalInput {
    /// How far the pedal is pressed, 0 released, 255 fully pressed. An implementation
    /// that does not define it leaves it unknown, and then cannot meet the contract of
    /// `read_pedal`.
    closed spec fn pedal_position(&self) -> u8 {
        vstd::pervasive::arbitrary()
    }

    /// Proportional value representing the proportion a pedal is "on", in [0, 255]
    fn read_pedal(&self) -> (pos: u8)
        ensures
            pos == self.pedal_position(),
    ;
}

} // verus!
