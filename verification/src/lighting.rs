//! Control for all lighting on the vehicle

use vstd::prelude::*;

verus! {

/// Interface for lighting controls. Used for headlights, tail lights, turn signals, and any other
/// lighting features that must be controlled by the ECU
pub trait LightController {
    /// Whether the lamp is currently lit. An implementation that does not define it
    /// leaves it unknown, and then cannot meet the contracts of its methods.
    closed spec fn light_on(&self) -> bool {
        vstd::pervasive::arbitrary()
    }

    /// Every value written with `set_light` so far, oldest first. An implementation that
    /// does not define it leaves it unknown, and then cannot meet the contract of
    /// `set_light`.
    closed spec fn light_writes(&self) -> Seq<bool> {
        vstd::pervasive::arbitrary()
    }

    /// Reports whether the lamp is lit.
    fn get_light(&self) -> (on: bool)
        ensures
            on == self.light_on(),
    ;

    /// Switches the lamp on or off.
    fn set_light(&mut self, on: bool)
        ensures
            final(self).light_on() == on,
            final(self).light_writes() == old(self).light_writes().push(on),
    ;
}

/// True when a blinking lamp is lit at `ts_ms` for a blink period of `per_ms`:
/// lit for the first half of every period (midpoint included), dark for the rest.
pub open spec fn blink_on(ts_ms: u64, per_ms: u32) -> bool {
    (ts_ms as int) % (per_ms as int) <= (per_ms as int) / 2
}

/// Calculates if a turn signal should be on, given a timestamp and period. Only should be used
/// during blink cycle.
pub fn signal_for_time(ts_ms: u64, per_ms: u32) -> (on: bool)
    requires
        per_ms > 0,
    ensures
        on == blink_on(ts_ms, per_ms),
        on == ((ts_ms as int) % (per_ms as int) <= (per_ms as int) / 2),
{
    let per: u64 = per_ms as u64;
    assert(per >> 1u64 == per / 2) by (bit_vector);
    // How far "into" the period we are: in the top half the signal is inactive.
    !((ts_ms % per) > (per >> 1u64))
}

/// Within every period a blinking lamp is lit at each phase of the first half (the
/// midpoint included) and dark at each phase of the second half: at time
/// `k * per_ms + phase`, with `phase < per_ms`, it is lit exactly when
/// `phase <= per_ms / 2`.
pub proof fn lemma_blink_phases(k: nat, phase: nat, per_ms: u32)
    requires
        per_ms > 0,
        phase < per_ms,
        k * per_ms + phase <= u64::MAX,
    ensures
        blink_on((k * per_ms + phase) as u64, per_ms) <==> phase <= per_ms / 2,
        phase <= per_ms / 2 ==> blink_on((k * per_ms + phase) as u64, per_ms),
        per_ms / 2 < phase ==> !blink_on((k * per_ms + phase) as u64, per_ms),
{
    let ts: int = (k * per_ms + phase) as int;
    vstd::arithmetic::div_mod::lemma_fundamental_div_mod_converse_mod(
        ts,
        per_ms as int,
        k as int,
        phase as int,
    );
    assert(((k * per_ms + phase) as u64) as int == ts);
}

/// The blink pattern repeats every period: one period later a lamp is in the same phase.
pub proof fn lemma_blink_periodic(ts_ms: u64, per_ms: u32)
    requires
        per_ms > 0,
        ts_ms + per_ms <= u64::MAX,
    ensures
        blink_on((ts_ms + per_ms) as u64, per_ms) == blink_on(ts_ms, per_ms),
{
    vstd::arithmetic::div_mod::lemma_mod_add_multiples_vanish(ts_ms as int, per_ms as int);
}

/// Given a timestamp in milliseconds, blink period in milliseconds, and light controller: blink a
/// light with the given period.
pub fn update_signal(ts_ms: u64, per_ms: u32, signal: &mut impl LightController)
    requires
        per_ms > 0,
    ensures
        final(signal).light_on() == blink_on(ts_ms, per_ms),
        final(signal).light_on() == ((ts_ms as int) % (per_ms as int) <= (per_ms as int) / 2),
        final(signal).light_writes() == old(signal).light_writes().push(blink_on(ts_ms, per_ms)),
{
    signal.set_light(signal_for_time(ts_ms, per_ms));
}

} // verus!
