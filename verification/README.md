# wideboi

Hardwave WideBoi is a stereo widener plug-in (VST3/CLAP): three bands split by
Linkwitz-Riley crossovers, each with its own Mid/Side width, plus per-band
correlation meters, a goniometer and a web-view editor.

- `src/` is the verified library (Verus): the sliding windows behind the
  correlation meters and the goniometer, the decimating counters, the
  parameter ids and typed-value reader, the editor message protocol, the
  editor's size bounds, the sign-in token reader and the text sent to the
  web view.
- `app/` is the plug-in itself (nih-plug, wry): the floating-point signal
  processing, host integration, the editor window and file access, built on
  the library.
- `tests/` exercises the library.
