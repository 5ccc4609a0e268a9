# rust_in_synth

The control logic of a Minimoog-style subtractive synthesizer, written in
Verus. The functions in `src/` carry contracts that the verifier proves,
with two exceptions: the counters that `shared_state.rs` shares with the
audio thread are atomics whose values Verus cannot describe, so those
accessors state nothing of them; and the JSON calls in `cc_file.rs` stand
behind three small trusted wrappers around `serde_json` whose contracts are
assumed, not proved.

## Layout

- `src/` — the verified library
  - `params.rs`, `params/cc.rs` — the synth parameters, their names, the
    MIDI CC ↔ parameter mapping (both directions kept consistent) and the
    integer CC conversions
  - `param_spec.rs` — the parameter table (ranges, defaults, curves, in
    thousandths) and the stable parameter index
  - `midi.rs` — raw MIDI decoding, channel filtering, the MIDI monitor's
    message classification, note and controller names
  - `keyboard.rs` — the QWERTY note layout (a key → note map rebuilt on each
    octave shift) and the monophonic keyboard input state machine
  - `voice.rs` — voice allocation with stealing (poly), the key stack
    (mono) and the note router that picks the voice for each note event
  - `envelope.rs` — the envelope stage machine
  - `delay_line.rs` — the circular buffer of the delay, chorus and reverb
  - `gui.rs` — MIDI learn and the CC routing of the standalone backend
    (custom mappings over the default CC layout)
  - `cc_file.rs` — the text of the CC mapping file (JSON, via `serde_json`)
  - `event.rs`, `lfo.rs`, `filter.rs`, `errors.rs`, `shared_state.rs` —
    the remaining enums, receivers, errors and shared counters
- `tests/` — tests of the library on concrete values
- `app/` — the terminal program around the library: audio rendering
  (oscillators, filter, envelope levels, effects), presets and CC mapping
  files, the parameter bank shared between threads, and the keyboard loop.
