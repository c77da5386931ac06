use ecu_core::engine::{engine_update, CylinderOutputs, HwThrottle, Throttle};
use ecu_core::input::{PedalInput, SwitchInput};
use ecu_core::lighting::LightController;
use ecu_core::stub::{
    VirtualIgnition, VirtualLight, VirtualPedal, VirtualSwitch, VirtualThrottle,
};
use ecu_core::{ecu_update, turn_lamps, ECUSettings, ECUState, Signal};

struct Bench {
    ignition: VirtualIgnition,
    throttle: VirtualThrottle,
    l_turn: VirtualLight,
    r_turn: VirtualLight,
    headlights: VirtualLight,
    l_switch: VirtualSwitch,
    r_switch: VirtualSwitch,
    h_switch: VirtualSwitch,
    headlight_switch: VirtualSwitch,
    pedal: VirtualPedal,
    state: ECUState,
    settings: ECUSettings,
}

impl Bench {
    fn new() -> Bench {
        Bench {
            ignition: VirtualIgnition::new(),
            throttle: VirtualThrottle::new(),
            l_turn: VirtualLight::new(false),
            r_turn: VirtualLight::new(false),
            headlights: VirtualLight::new(false),
            l_switch: VirtualSwitch { on: false },
            r_switch: VirtualSwitch { on: false },
            h_switch: VirtualSwitch { on: false },
            headlight_switch: VirtualSwitch { on: false },
            pedal: VirtualPedal { val: 0 },
            state: ECUState::new(),
            settings: ECUSettings { signal_blink_period: 1000 },
        }
    }

    fn switches(&mut self, l: bool, r: bool, h: bool, head: bool) {
        self.l_switch.on = l;
        self.r_switch.on = r;
        self.h_switch.on = h;
        self.headlight_switch.on = head;
    }

    fn run(&mut self, now_ms: u64, cylinders: [bool; 4]) {
        ecu_update(
            || now_ms,
            cylinders,
            &mut self.ignition,
            &mut self.throttle,
            &mut self.l_turn,
            &mut self.r_turn,
            &mut self.headlights,
            &mut self.l_switch,
            &mut self.r_switch,
            &mut self.h_switch,
            &mut self.headlight_switch,
            &mut self.pedal,
            &mut self.state,
            &self.settings,
        );
    }

    fn lamps(&self) -> (bool, bool) {
        (self.l_turn.on, self.r_turn.on)
    }
}

#[test]
fn no_switch_leaves_everything_dark() {
    let mut b = Bench::new();
    b.l_turn.on = true;
    b.r_turn.on = true;
    b.headlights.on = true;
    b.run(100, [false; 4]);
    assert_eq!(b.lamps(), (false, false));
    assert!(!b.headlights.on);
}

#[test]
fn left_signal_blinks_left_lamp_only() {
    let mut b = Bench::new();
    b.switches(true, false, false, false);
    b.run(100, [false; 4]);
    assert_eq!(b.lamps(), (true, false));
    b.run(600, [false; 4]);
    assert_eq!(b.lamps(), (false, false));
    b.run(1200, [false; 4]);
    assert_eq!(b.lamps(), (true, false));
}

#[test]
fn right_signal_blinks_right_lamp_only() {
    let mut b = Bench::new();
    b.l_turn.on = true;
    b.switches(false, true, false, false);
    b.run(0, [false; 4]);
    assert_eq!(b.lamps(), (false, true));
    b.run(999, [false; 4]);
    assert_eq!(b.lamps(), (false, false));
}

#[test]
fn hazard_overrides_turn_switches() {
    for (l, r) in [(false, false), (true, false), (false, true), (true, true)] {
        let mut b = Bench::new();
        b.switches(l, r, true, false);
        b.run(250, [false; 4]);
        assert_eq!(b.lamps(), (true, true));
        b.run(750, [false; 4]);
        assert_eq!(b.lamps(), (false, false));
    }
}

#[test]
fn both_turn_switches_without_hazard_signal_nothing() {
    let mut b = Bench::new();
    b.switches(true, true, false, false);
    b.run(100, [false; 4]);
    assert_eq!(b.lamps(), (false, false));
}

#[test]
fn releasing_the_switch_stops_the_signal() {
    let mut b = Bench::new();
    b.switches(true, false, false, false);
    b.run(100, [false; 4]);
    assert_eq!(b.lamps(), (true, false));
    b.switches(false, false, false, false);
    b.run(200, [false; 4]);
    assert_eq!(b.lamps(), (false, false));
}

#[test]
fn headlights_follow_their_switch() {
    let mut b = Bench::new();
    b.switches(false, false, false, true);
    b.run(700, [false; 4]);
    assert!(b.headlights.get_light());
    b.switches(false, false, false, false);
    b.run(800, [false; 4]);
    assert!(!b.headlights.get_light());
}

#[test]
fn throttle_follows_pedal_and_cylinders_are_forwarded() {
    let mut b = Bench::new();
    b.pedal.val = 200;
    b.run(0, [false, false, true, false]);
    assert_eq!(b.throttle.read_throttle(), 200);
    assert_eq!(b.ignition.states, [false, false, true, false]);
    b.pedal.val = 0;
    b.run(10, [true, false, false, false]);
    assert_eq!(b.throttle.read_throttle(), 0);
    assert_eq!(b.ignition.states, [true, false, false, false]);
    // inputs are left as they were
    assert_eq!(b.pedal.read_pedal(), 0);
}

#[test]
fn short_blink_period() {
    let mut b = Bench::new();
    b.settings.signal_blink_period = 10;
    b.switches(false, true, false, false);
    b.run(25, [false; 4]);
    assert_eq!(b.lamps(), (false, true));
    b.run(26, [false; 4]);
    assert_eq!(b.lamps(), (false, false));
}

#[test]
fn engine_update_sets_outputs_and_throttle() {
    let mut ign = VirtualIgnition::new();
    let mut thr = HwThrottle::new();
    let pedal = VirtualPedal { val: 42 };
    engine_update([false, true, false, false], &mut ign, &mut thr, &pedal);
    assert_eq!(ign.states, [false, true, false, false]);
    assert_eq!(thr.get_throttle_pos(), 42);
}

#[test]
fn stubs_read_back_what_was_written() {
    let mut ign = VirtualIgnition::new();
    assert_eq!(ign.states, [false; 4]);
    ign.set_all([true, true, false, true]);
    assert_eq!(ign.states, [true, true, false, true]);

    let mut thr = VirtualThrottle::new();
    assert_eq!(thr.read_throttle(), 0);
    thr.set_throttle(255);
    assert_eq!(thr.read_throttle(), 255);

    let mut hw = HwThrottle::new();
    assert_eq!(hw.get_throttle_pos(), 0);
    hw.set_throttle(9);
    assert_eq!(hw.get_throttle_pos(), 9);

    let mut lamp = VirtualLight::new(false);
    lamp.set_light(true);
    assert!(lamp.get_light());

    let sw = VirtualSwitch { on: true };
    assert!(sw.read_switch());
    assert_eq!(VirtualPedal { val: 3 }.read_pedal(), 3);
}

#[test]
fn new_state_starts_without_signal() {
    // A fresh state with no switch pressed keeps lamps dark; Signal values compare by variant.
    let mut b = Bench::new();
    b.run(0, [false; 4]);
    assert_eq!(b.lamps(), (false, false));
    assert_eq!(Signal::NONE, Signal::NONE);
    assert_ne!(Signal::LEFT, Signal::RIGHT);
}

#[test]
fn switch_readings_select_the_mode() {
    // (left, right, hazard) readings and the lamps they give in the lit phase
    let cases = [
        ((false, false, false), (false, false)),
        ((true, false, false), (true, false)),
        ((false, true, false), (false, true)),
        ((true, true, false), (false, false)),
        ((false, false, true), (true, true)),
        ((true, true, true), (true, true)),
    ];
    for ((l, r, h), lamps) in cases {
        let mut st = ECUState::new();
        ecu_core::apply_switch_readings(&mut st, l, r, h, false);
        let mut b = Bench::new();
        b.state = st;
        b.switches(l, r, h, false);
        b.run(100, [false; 4]);
        assert_eq!(b.lamps(), lamps);
    }
}

#[test]
fn turn_lamps_for_each_mode() {
    assert_eq!(turn_lamps(&Signal::LEFT, true), (true, false));
    assert_eq!(turn_lamps(&Signal::LEFT, false), (false, false));
    assert_eq!(turn_lamps(&Signal::RIGHT, true), (false, true));
    assert_eq!(turn_lamps(&Signal::HAZARD, false), (false, false));
    assert_eq!(turn_lamps(&Signal::NONE, true), (false, false));
}
