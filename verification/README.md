# mediacodec

Bindings to the Android NDK media APIs (MediaExtractor, MediaFormat,
ANativeWindow), split in two:

- `src/` is the verified library (Verus). It holds the rules that the
  bindings apply around the NDK: status codes (`error.rs`), color formats and
  the reading of format entries (`format.rs`), the extractor's state and the
  step-by-step protocol of reading a sample into a codec buffer
  (`extractor.rs`, which keeps the phase of a read under way and refuses
  answers out of order), and window formats, transforms and handles
  (`native_window.rs`). NDK objects appear there as handles (addresses).
- `app/` performs the NDK calls (`app/ffi.rs`), owns the NDK objects (and
  releases them on drop), and hands the library the plain values those calls
  return, acting on the library's answers.

`tests/` exercises the library on concrete values.
