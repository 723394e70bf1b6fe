# harmonia

A guitar tuner. `src/` is the verified library (Verus); `app/` is the
program around it: audio capture, the FFT, the floating-point signal
arithmetic and the egui window.

The library decides; the program measures. Measured quantities (spectrum
magnitudes, normalised differences, pitch errors, deviations in cents) reach
the library as ordered integer keys (`app/keys.rs`): `Some(k)` ordered like
the value, `None` for a value that is not a number, so that every comparison
the library makes answers as the comparison of the values would.

- `order`: comparisons of keys; first minimum / maximum scans.
- `pitch`: spectral peak, period selection on the normalised difference
  function, octave correction, MIDI note naming.
- `tuning`: nearest guitar note and the tuning verdict.
- `framing`: frame layout check, rolling frame buffer, noise calibration.
- `device`: choice of the input configuration.
- `display`: string labels, button slots, gauge update and highlight.
