# lc3_traits

Traits, types and protocol logic for an LC-3 platform, written in Verus:

- `src/isa.rs`: words, addresses, registers and the address-space layout.
- `src/control/`: the control interface (`Control`, stepping by call depth,
  snapshots, ranges, program and device metadata, the load API) and the
  RPC that carries control calls between a host and a device (messages,
  the device's request handling, the controller's response sorting, the
  encoding layer and the state shared by event futures), plus the
  flat-message control protocol.
- `src/peripherals/`: the peripheral traits (ADC, PWM, timers, clock,
  input, output), stub implementations and the set that bundles them.
- `src/memory.rs`: the memory trait and a one-word stub.
- `src/tools*`: text search and splitting, hex numbers and the reader for a
  reference simulator's state dump.

`app/` holds what the library leaves to its users: the dump-reading
program, transports, the event futures, the controller and device loops,
and JSON framing. `tests/` exercises the library from outside.
