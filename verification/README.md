# prismriver

An audio playback library for music players, with its decision logic
verified by Verus.

## Layout

- `src/` — the verified library.
  - `lib.rs` — the player's bookkeeping (`Prismriver`: playback state, loaded
    stream, position, seeking) and the playback thread's bookkeeping
    (`PlayerLoop`: which decoder runs, when to decode, when a stream has
    ended), both as state machines with exact contracts.
  - `audio_output.rs` — laying planar audio out in frames, choosing the output
    stream's parameters, sizing the ring buffer, buffer levels and delays,
    choosing a sample-rate converter.
  - `resampler.rs` — per-channel input queues of the resampler, taken in
    chunks, and the interleaving of its output.
  - `decode/` — decoder errors and parameters, the silent decoder, the
    decisions of the symphonia and ffmpeg decoders, and the MIDI decoder's
    reading of a file (through midly) and its timing.
  - `utils.rs` — which decoders to try for a URI scheme, and `file` URIs
    from paths and back (through fluent-uri).
  - `laws.rs` — properties that span several operations, proved.
- `tests/` — tests of the library on concrete values.
- `app/` — the program around the library: the audio device (cpal), the ring
  buffer (rb), sample-rate conversion (samplerate, rubato), the decoders
  (symphonia, ffmpeg, the oxisynth synthesizer), reading files and
  canonicalizing paths, the playback thread, volume, and `main`.
