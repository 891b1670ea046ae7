# memvro

The verified core of a local-first meeting recorder and transcriber.

- `src/` is the library, verified with Verus:
  - `recorder`: the recording worker's state machine and the controller that
    sends it commands over a channel;
  - `session`: the desktop commands' recording flag and the storage-folder rule;
  - `models`: the model catalogue, lookups, download URLs and readiness;
  - `transcript`: model-file and recording checks, the resampling index plan,
    the Spanish retry rule and the transcript written out;
  - `capture`: microphone sample formats and system-audio byte layouts;
  - `text`: trimming and comparing text.
- `tests/` runs the library on concrete values.
- `app/` is the desktop application around it: Tauri commands, settings
  files, model downloads, device capture (CPAL, ScreenCaptureKit, WASAPI),
  WAV files (hound), Whisper, and the floating-point audio processing
  (level meter, mixing, normalisation, interpolation).
