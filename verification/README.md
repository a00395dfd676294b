# astronomy_engine

A small astronomy engine: satellite positions from two-line element sets
(through the `sgp4` crate) and the sky positions of 200 bright stars.

- `src/` is the verified library (Verus): the integer handling of Unix
  timestamps and chrono's range (`time`), reading element sets (`tle`), and
  the chain of SGP4 steps from an element set and an instant to a prediction
  (`propagation`). Each chrono and sgp4 call is named by an uninterpreted spec
  function, and the contracts state the result of the whole chain over those
  names.
- `app/` is the C interface (`sat_pos`, `sat_altaz`, `star_positions`) and all
  floating-point work: splitting a time in seconds, Earth rotation, observer
  coordinates, horizon coordinates and the star catalogue.
- `tests/` exercises the library against the real `chrono` and `sgp4` crates.
