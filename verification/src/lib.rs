//! Sound playback voices.
//!
//! A [`Sound`] is one playback voice: it owns one backend source handle, is
//! bound at construction to one shared, immutable [`SoundData`] buffer, and
//! forwards transport controls (play, pause, stop) and gain/pitch/spatial
//! parameters to that source. Every operation is gated on the global audio
//! [`Context`]: against an uninitialized context an operation changes nothing
//! and returns its documented fallback value.
//!
//! The backend itself (device output, decoding, mixing) is an outside
//! collaborator. This crate verifies the part of a voice that has invariants:
//! which state each transport call leaves the source in, which value each
//! parameter holds after a set, what every operation does when the context is
//! down, and that a source handle is drawn fresh at construction and released
//! at most once.

pub mod context;
pub mod sound;
pub mod sound_data;
pub mod states;

pub use context::Context;
pub use sound::Sound;
pub use sound::SoundModel;
pub use sound::Vec3;
pub use sound_data::SoundData;
pub use states::State;
