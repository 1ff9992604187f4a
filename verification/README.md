# physics_instruments

Physically modelled six-string guitar and 88-key concert grand piano.

- `src/` is the verified library (Verus): everything the instruments decide on
  whole numbers and text — fretboard note routing and MPE string addressing,
  strum ordering, groove step sequencing, piano polyphony and voice stealing,
  the xorshift noise generators, keyboard layout tables and key masks,
  note-name parsing, factory preset tables and the English / Simplified
  Chinese interface labels. Each public function states its result in its
  contract; the laws that span several functions are public proof functions.
- `tests/` exercises the library on concrete values.
- `app/` is the command-line renderer and the CLAP plugin entry. It holds the
  floating-point signal processing (modal strings, hammers, pickups, bodies,
  soundboard, FFT convolution) and the WAV output, and calls the library for
  every decision listed above.

The crate has no audio plugin built on nih_plug, no plugin editor, no
on-screen widgets and no standalone plugin binary; nih_plug is not among its
dependencies. The keyboard tables and the mouse-key transition in
`src/piano/keyboard.rs` serve such an on-screen keyboard and therefore have
no caller in `app/`.
