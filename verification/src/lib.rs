//! Verified core of bindings to the Android NDK media APIs (MediaExtractor,
//! MediaFormat, ANativeWindow).
//!
//! The library holds the rules that these bindings apply on top of the NDK:
//! how raw status codes become [`MediaStatus`] values, how color-format codes
//! are classified, which sample flags an extractor hands on to a codec, and
//! how an extractor decides, step by step, what to do while it reads a sample.
//! Calls into the NDK itself are made by the caller, which hands the library
//! the plain values those calls return.
pub mod error;
pub mod extractor;
pub mod format;
pub mod native_window;

pub use error::MediaStatus;
pub use extractor::{
    MediaExtractor, ReadAction, ReadEvent, ReadPhase, SeekMode, CODEC_RELEVANT_FLAGS, SAMPLE_FLAG_ENCRYPTED,
};
pub use format::{has_interior_nul, AMediaFormat, ColorFormat, MediaFormat};
pub use native_window::{
    ANativeWindow, ARect, NativeWindow, NativeWindowFormat, NativeWindowTransform,
};
