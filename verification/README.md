# opendeck

The OpenDeck MIDI SysEx configuration protocol, verified with Verus.

- `src/` is the library. Every function there carries a contract that Verus
  proves: the parser and renderer of SysEx messages (with the law that a
  rendered configuration message parses back to its request), the components
  (buttons, encoders, analog inputs, outputs, global settings) with the MIDI
  messages they send, and a configuration that answers requests, walks its
  backup, and restores every setting from it (`config::restore`).
- The calls into `heapless` and `midi2` stand behind small trusted wrappers in
  `src/values.rs` and `src/midi.rs`; their doc comments say what is assumed.
- `app/` holds what computes in floating point: the scaling of raw converter
  readings of analog inputs.
- `tests/` runs the library on concrete messages and configurations.
