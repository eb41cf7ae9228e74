# sensd

A library for polling sensors and driving actuators: typed readings that may
be missing, input and output devices with their low-level commands,
threshold and PID actions, and routines scheduled to run later.

- `src/` is the library, written in Verus: its public functions carry
  contracts, and the laws the library keeps (ordering and equality of
  readings, keyed storage, clearing of executed routines, ...) are proof
  functions beside the code they are about.
- `tests/` exercises the library on concrete values.
- `app/` holds what the library leaves to its caller: locks shared between
  threads, files, printing, single-precision arithmetic, the PID controller,
  serialisation and displayable error types.

Single-precision numbers travel through the library as their IEEE-754 bit
patterns; the library orders and compares them on those bits.
