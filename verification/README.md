# deorbiting

The verified core of an orbital-mechanics simulator for asteroid deflection
scenarios.

`src/` is a Verus library. It holds the parts of the simulator that are
integer and decision logic, each with a contract proved by Verus:

- `ephemeris::data` — the catalogue of bodies (`CelestialBodyId`), their
  parents and names.
- `ephemeris::table` — the binary ephemeris table format: a byte-level
  specification of the header and samples, and a reader proved to follow it.
  Floating-point fields are kept as IEEE-754 bit patterns.
- `ephemeris::horizons_tables` — the stable numeric ids of the planets and the
  store of loaded tables, which only accepts a table for the body it describes.
- `ephemeris` — the registry between scene entities and bodies.
- `collision` — the queue of collision notifications and the set of colliding
  entities.
- `prediction` — when a trajectory prediction runs, and the per-asteroid cache
  from which a prediction is extended.
- `interceptor`, `continuous` — the mission state machines of interceptors and
  continuous deflectors, and their launch registries.

Each module also states the laws its operations keep as public proof
functions (`lemma_*`).

`app/` is the Bevy program around the library: rendering, input, and all
floating-point physics (Kepler orbits, gravity, integrators, Lambert
transfers, thrust), which call the library for the logic above.

`tests/` runs the library on concrete values.
