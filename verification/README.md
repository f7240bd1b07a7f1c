# drmem

The decisions of a home-automation driver framework, verified with Verus: what
is written to the backend, what is handed to the hardware, whom to answer, and
how long to wait.

- `src/driver/overridable_device.rs`: a settable device that others can set, too.
  It is a state machine; `src/driver/override_laws.rs` holds what is true of it
  over several steps.
- `src/driver/classes/`: switches, dimmers and color bulbs.
- `src/hue/`: the lights of a Hue bridge.
- `src/tplink/`: TP-Link switches, outlets and dimmers.
- `src/memory/`: devices that just hold a value, and their configuration.
- `app/`: the daemon around the library. It waits, talks to channels and computes
  with floating-point numbers.
