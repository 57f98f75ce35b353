# sasa_unity

The verified core of a C ABI bridge that lets Unity drive the
[sasa](https://github.com/Mivik/sasa) audio engine through P/Invoke.

- `src/` — the library, verified with Verus:
  - `error.rs`: the last-error slot (`set_error`, `clear_error`, `fallible`,
    `SasaUnity_HasError`, `SasaUnity_GetError`); a stored message never holds a
    NUL byte.
  - `handles.rs`: integer handle tables for clips, music tracks and sound
    effects; handles count up from 1, 0 is null, a destroyed handle is never
    reissued.
  - `engine.rs`: the slot of the running engine (start once, shut down, the
    "not initialized" failure) and the mapping of host settings.
  - `clip.rs`: checks on what the host hands over, interleaved samples to
    stereo frames, and the bucket ranges of the waveform overview, with proofs
    that the buckets stay inside the clip and cover every frame.
  - `entry.rs`: one step function per exported entry point that can fail. It
    empties the error slot, runs the checks in order, calls the closure that
    does the audio work, and returns the code; the code reports success
    exactly when the error slot is empty afterwards.
- `app/` — the exported `extern "C"` functions: thread-local state, turning
  raw pointers into slices and handles, the closures that call sasa, and the
  floating-point parts (latency, clip length, playback position, peak values).
- `tests/` — tests of the library.

sasa is fetched from its git repository; it is not on crates.io, so `app/`
only builds where that dependency is provided. On Android the final link also
needs `-lc++abi` after oboe's `-lc++_static`.
