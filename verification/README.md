# kugou_dsp

A verified library around KuGou's `dsp.dll` effect engine and its global
effect (APO), with the `kugou-dsp` command-line program in `app/`.

- `src/` (Verus): the preset table and command-line whitelist, argument
  parsing and messages, UTF-16 registry text, the APO install and uninstall
  sequences (backup and restore of an endpoint's effect slot, mounted
  endpoints, the on/off switch), the sequences and arguments of the
  privilege and access-control calls, the control window's decisions, WAV
  decoding (the bytes are parsed with `hound`), and the offline pipeline that
  applies the preset, flushes the engine and feeds it in blocks.
- `app/` (plain Rust): loading `dsp.dll` and calling it, reading and writing
  files (the float WAV output with `hound`), floating-point conversion, and
  the Win32 registry, COM, security and window calls. It runs on 32-bit
  Windows only.
- `tests/`: concrete scenarios for each module.
