# fs25-ffb

A force-feedback enhancer for Farming Simulator 25 on Linux. An in-game mod
writes vehicle physics to a telemetry file; a daemon turns each frame into
force-feedback effects and writes them to the steering wheel; a window shows
what is going on and tunes it.

## Layout

- `src/` is the library. Everything in it is verified with Verus, against the
  stated behaviour of six calls that Verus takes on trust: `read_u16` and
  `read_u32` of byteorder's `LittleEndian`, the `Debug` forms of
  `evdev::FFEffectType` and `std::path::Path`, `str::to_lowercase` and
  `String::from_utf8_lossy`.
  - `telemetry` decodes frames, tells new ones from old ones, and says when
    telemetry is stale.
  - `ffb` turns effect targets into uploads and events for the kernel, and
    remembers what was written.
  - `daemon` decides where telemetry is found and what the loop around the
    wheel does next.
  - `device` chooses the wheel among the visible input devices.
  - `effects`, `config` and `manual` hold effect targets, tuning with its
    presets, and the manual tests.
  - `troubleshoot` judges the system and writes the report.
  - `gui` holds what the window shows and what its controls change.
  - `shared`, `logging` and `ring` hold the live state, the log lines and the
    bounded buffers behind both.
  - `clap_lite` reads the command line; `text` holds text primitives.
- `app/` is the program around it: files, the wheel, signals, threads, the
  window, and all floating-point arithmetic.
- `tests/` runs the library.

Numbers that the game, the configuration and the effect engine hold as single
precision travel through the library as bit patterns.

Each module ends with its laws: public proof functions that say what holds of
several functions together.
