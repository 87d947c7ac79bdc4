# vibes

A chromatic instrument tuner for GTK4 / libadwaita. The logic that decides what the tuner
shows is a library verified with Verus; the window, the audio capture, the drawing and all
floating-point signal processing are ordinary Rust around it.

## Layout

| Path | |
|---|---|
| `src/pitch.rs` | Note names in letters and solfège; placing a MIDI note number in its pitch class and octave |
| `src/tuning.rs` | The four display states (listening, in tune, sharp, flat): pill text and class, sticker colour, chevrons, ring |
| `src/config.rs` | The `key=value` settings file: reading and writing it, and that what is written reads back |
| `src/settings.rs` | The preset pitch standards, the slider tick marks, the preview of concert A |
| `src/detect.rs` | Cutting samples into detection windows, the five-reading history, the grace hold |
| `src/palette.rs` | The hue families of the wave bands, by accent colour; byte channels of a packed colour |
| `src/text.rs` | Decimal numbers, the Hz-and-cents readout, the size class of a note name |
| `src/haptics.rs` | The haptic tap (a no-op where there is no haptic device) |
| `tests/` | Tests of the library |
| `app/` | The application: window, settings dialog, microphone capture, YIN detector, drawing |
