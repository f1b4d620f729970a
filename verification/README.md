# reverb_csd

A CLAP/VST3 reverb effect whose sound is made by Csound (the `reverbsc`
opcode), with three parameters: size (feedback), filter (cut-off) and mix.

- `src/` is the verified library (Verus): the parameter table, the shared and
  local parameter copies and how they synchronise, the saved-state encoding
  (through `bincode_next`), the engine options and channel names handed to
  Csound, and the host-facing decisions (audio ports, parameter descriptions,
  GUI configurations). Parameter values are `f32` numbers carried as their
  IEEE-754 bit patterns; `util::float_bits` gives `f32` equality and clamping
  on those patterns.
- `app/` is the plugin itself: the `clack` host glue, the Csound engine
  loaded with `libloading`, and the `egui` editor window.
- `tests/` runs the library against concrete values, including the real
  `f32` operations and `bincode_next`'s encoding of `[f32; 3]`.
