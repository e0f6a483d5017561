# atomecs

The verified core of an ultracold-atom simulation library (laser cooling, magnetic
trapping, atom sources and output), written in Verus.

- `src/` is the library. Every function there carries a contract; Verus proves them all
  except those of four small wrappers around outside calls (byteorder's little-endian
  writes, rand's index sampling and random choice), whose contracts restate the crates'
  documentation and are trusted. The proved functions cover:
  laser indexing and sampler-slot masks, simulation-region tests, magnetic field-grid
  lookup, atom losses and RF-knife resampling, ramp keyframes, the early-timestep
  optimisation, oven emission counts, and the byte layout of every output format. The
  public proof functions state the laws the systems keep across calls.
- `app/` is plain Rust around it: the floating-point physics of beams, fields and shapes,
  random draws, file and console output, simulation parameters read from JSON, and the
  entity-component glue that hands per-entity values to the library.
- `tests/` runs the library on concrete values.
