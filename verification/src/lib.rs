//! A composable real-time audio sample-production pipeline.
//!
//! A graph of sound producers is pulled one 16-bit sample at a time.
//! Sources can be combined (mixed or sequenced) and decorated with
//! runtime-adjustable controls (volume, pause, stop), and a live graph can
//! be mutated from outside the render path through a controllable handle.

mod sound;
pub mod sounds;
pub mod wrappers;

pub use sound::Error;
pub use sound::NextSample;
pub use sound::Sound;
