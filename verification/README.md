# weact_studio_epd

A driver for the WeAct Studio 2.9" and 2.13" e-paper panels (SSD1680 controller),
verified with Verus.

The library in `src/` does no I/O. Each procedure of the panel (`init`, `write_bw_buffer`,
`full_refresh`, `fast_update_from_buffer`, ...) loads the exact sequence of steps it takes;
`DisplayDriver::advance` then hands these out one action at a time (send a command, send
data, wait for the busy pin, pause, toggle the reset pin) and takes back each outcome.
The contracts state every procedure's sequence byte for byte, and how the driver's refresh
bookkeeping (partial mode, initial full refresh) changes along the way.

- `src/steps.rs`: actions, steps, and the step-by-step semantics of `advance`.
- `src/script.rs`: each procedure as a sequence of steps, and the functions that build it.
- `src/driver.rs`: the driver state, its procedures and `advance`.
- `src/laws.rs`: properties across calls (running a procedure performs exactly its
  actions; refresh bookkeeping after each kind of update; the fast refresh runs the
  full waveform only when none was run before; deep sleep never waits on the busy pin;
  the red RAM is written only after the refresh in a full B/W update; the initial
  full refresh is never forgotten; red-RAM writes mirror B/W-RAM writes; byte encodings).
- `app/`: runs the procedures against `display-interface` and `embedded-hal` peripherals,
  in an async and a blocking form.
