//! Virtual devices for running the ECU without hardware: each one holds its state in a
//! plain field that a simulator can read or set.

use vstd::prelude::*;

use crate::engine::{CylinderOutputs, Throttle};
use crate::input::{PedalInput, SwitchInput};
use crate::lighting::LightController;

verus! {

/// Mock cylinder which will hold the state of each cylinder
pub struct VirtualIgnition {
    /// State of each cylinder, held in an array
    pub states: [bool; 4],
    /// Every pattern written so far
    pub writes: Ghost<Seq<[bool; 4]>>,
}

// Implement the cylinder outputs
impl CylinderOutputs for VirtualIgnition {
    open spec fn cylinder_states(&self) -> [bool; 4] {
        self.states
    }

    open spec fn cylinder_writes(&self) -> Seq<[bool; 4]> {
        self.writes@
    }

    fn set_all(&mut self, states: [bool; 4]) {
        self.states = states;
        self.writes = Ghost(self.writes@.push(states));
    }
}

impl VirtualIgnition {
    /// All cylinders dark.
    pub fn new() -> (ign: VirtualIgnition)
        ensures
            ign.states@ == seq![false, false, false, false],
            ign.cylinder_writes() == Seq::<[bool; 4]>::empty(),
    {
        VirtualIgnition { states: [false; 4], writes: Ghost(Seq::empty()) }
    }
}

/// A virtual lamp.
pub struct VirtualLight {
    pub on: bool,
    /// Every value written so far
    pub writes: Ghost<Seq<bool>>,
}

impl VirtualLight {
    /// A lamp that is lit or dark, not yet written.
    pub fn new(on: bool) -> (lamp: VirtualLight)
        ensures
            lamp.on == on,
            lamp.light_writes() == Seq::<bool>::empty(),
    {
        VirtualLight { on, writes: Ghost(Seq::empty()) }
    }
}

impl LightController for VirtualLight {
    open spec fn light_on(&self) -> bool {
        self.on
    }

    open spec fn light_writes(&self) -> Seq<bool> {
        self.writes@
    }

    fn get_light(&self) -> bool {
        self.on
    }

    fn set_light(&mut self, on: bool) {
        self.on = on;
        self.writes = Ghost(self.writes@.push(on));
    }
}

/// A virtual switch or button.
pub struct VirtualSwitch {
    pub on: bool,
}

impl SwitchInput for VirtualSwitch {
    open spec fn switch_on(&self) -> bool {
        self.on
    }

    fn read_switch(&self) -> bool {
        self.on
    }
}

/// A virtual pedal.
pub struct VirtualPedal {
    pub val: u8,
}

impl PedalInput for VirtualPedal {
    open spec fn pedal_position(&self) -> u8 {
        self.val
    }

    fn read_pedal(&self) -> u8 {
        self.val
    }
}

/// A virtual throttle body, which records the opening it was last commanded to.
pub struct VirtualThrottle {
    val: u8,
    writes: Ghost<Seq<u8>>,
}

impl VirtualThrottle {
    /// A closed throttle.
    pub fn new() -> (t: VirtualThrottle)
        ensures
            t.throttle_position() == 0,
            t.throttle_writes() == Seq::<u8>::empty(),
    {
        VirtualThrottle { val: 0, writes: Ghost(Seq::empty()) }
    }

    /// The opening last commanded, as a proportion [0,255].
    pub fn read_throttle(&self) -> (pos: u8)
        ensures
            pos == self.throttle_position(),
    {
        self.val
    }
}

impl Throttle for VirtualThrottle {
    closed spec fn throttle_position(&self) -> u8 {
        self.val
    }

    closed spec fn throttle_writes(&self) -> Seq<u8> {
        self.writes@
    }

    fn set_throttle(&mut self, value: u8) {
        self.val = value;
        self.writes = Ghost(self.writes@.push(value));
    }
}

} // verus!
