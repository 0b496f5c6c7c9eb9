//! A verified core for a small game audio engine: a sample bank of 16-bit PCM
//! sound effects, a fixed pool of mixing channels, a streamed music track with
//! a per-mode advance policy, and the control operations that drive them.

use vstd::prelude::*;

pub mod assets;
pub mod mixer;
pub mod music;
pub mod engine;
pub mod screen;
pub mod input;
pub mod config;

verus! {

/// Canonical sample rate that all loaded assets and the output device must
/// agree on.
pub const SND_FREQ: i32 = 22050;

/// Size of the fixed sound-effect channel pool.
pub const MAX_CHANNELS: usize = 4;

/// Number of sound-effect asset slots probed at startup.
pub const MAX_SAMPLES: usize = 33;

} // verus!
