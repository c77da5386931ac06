# ecu-core

The decision logic of a small automotive ECU, verified with Verus.

- `src/lighting.rs`: blink timing of the turn signals (`signal_for_time`) and the lamp trait.
- `src/input.rs`: switch and pedal traits.
- `src/engine.rs`: cylinder-output and throttle traits, forwarding of the spark pattern and
  of the pedal request (`engine_update`), and the board's throttle stub.
- `src/lib.rs`: the ECU state (turn-signal mode, headlight request) and the loop step
  `ecu_update`, with the laws of the turn signals.
- `src/stub.rs`: virtual devices for running the ECU without hardware.

Every device is reached through a trait with a spec function that says what the device
holds, and each output device also keeps a log of what was written to it; the contracts of
the loop are stated over those functions. The decisions themselves (`apply_switch_readings`,
`signal_for_time`, `turn_lamps`) take plain readings.

`app/` holds the host simulator (eframe/egui) and the STM32 board loop. The crank-angle to
spark timing and the engine model work in `f32` and stay there.
