# lissajous

A Lissajous oscillator: two sine waves X and Y played together and drawn as
the curve x(t) = sin(a t), y(t) = sin(b t) with a/b = X/Y.

- `src/` is the verified library (Verus): how the `X:Y` entry and typed
  frequencies are read (`text`, `expression`), how the player's settings change
  with each user action (`controls`), the preset tables (`presets`), and the
  properties that hold across these operations (`laws`).
- `app/` is the desktop program around it: the egui window, the audio output,
  the expression evaluator, and the floating-point arithmetic on frequencies,
  the curve and its period.
- `tests/` runs the library on concrete values.
