# senseshift

Verified core of the SenseShift haptics tools, written in Verus.

`src/` is the library. Its functions are proved against their contracts, except for two
trusted wrappers whose contracts are believed: `proxy_config::pattern_compiles` (does
`regex::Regex::new` accept a pattern) and `osc_app::new_uuid` (a random id from
`uuid::Uuid::new_v4`, with nothing promised of it). Three outside types are declared so
that values of them can be carried through: `serde_json::Value`, `std::time::Instant` and
`std::time::SystemTime`. The modules:

- `device`: body positions of haptic devices and the device models that use them.
- `airpods`, `continuity`: decoding Apple Continuity / Proximity Pairing beacons.
- `tact`: the `.tact` project schema, effect durations, dot-to-path conversion,
  regrouping rotated effects (`tact::rotation`), and splitting a project into frames
  (`tact::frame_compilation`).
- `path_point_mapper`: per-position mappers and the merging of mapped motor intensities.
- `definitions`, `sdk`: haptic definitions and the SDK message protocols (v2, v3, v4).
- `proxy_config`: the OSC proxy's configuration, its validation and the sample file.
- `tui`, `logging`: the state of the proxy's terminal monitor and its log lines.
- `text`: comparing text and writing numbers in decimal.
- `osc_app`: the desktop app's OSC server settings and switches.

`tests/` runs the library on concrete inputs.

`app/` is ordinary Rust around the library: the proxy's `main`, file formats (serde),
terminal drawing, network clients, and the floating-point parts of effect processing
(fading, scaling, rotation, interpolation and motor mapping).
