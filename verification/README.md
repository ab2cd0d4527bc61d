# nightfire

Light control for an audio-to-light installation: four LED quadrants
driven by a game controller, an infrared remote and the music.

## Layout

- `src/` is the library, written in Verus: every function carries a
  contract and is proved against it, except the trusted items in
  `src/conf.rs` that call the `yaml-rust` parser (`yaml_load` and
  `yaml_get_str`, with the declared types `Yaml` and `ScanError` and the
  names `yaml_documents` and `yaml_str_entry` for their results).  Their
  contracts are taken on trust from the parser's source and are not
  proved.
  - `light/`: colors, coordinates and quadrants, color maps, masks,
    layers, the light state of the default mode and the pattern
    generator.
  - `sixaxis/`: the controller's raw report, buttons, axes and the
    controller that compares two reports.
  - `ir/`: pulses of the infrared receiver, the remote's signals and
    the reader that turns pulses into signals.
  - `mode/`: what the modes decide on controller input and remote
    signals, and the switcher between modes.
  - `conf.rs`, `inactivity.rs`, `mixxx/`, `audio.rs`,
    `periodic_updater.rs`: the configuration file, inactivity
    tracking, beat data and the small interfaces around them.
- `tests/` runs the library on concrete values.
- The configuration file is read by `Conf::from_yaml_str`; it accepts
  texts of at most `MAX_CONF_CHARS` characters, since the parser nests
  block collections by recursion without a depth limit.
- The reaction of the lights to the music is left out: it is driven by
  an audio analysis crate that is not part of this project.
- `app/` is the program around it: reading the controller, the GPIO
  pin of the infrared receiver and the configuration file, the clock
  driven envelopes (which work in floating point), and the main loop.
