//! Pitch-correction harmonizer core: harmony planning from a detected
//! fundamental frequency, equalizer band management, a scripted fade-in
//! sequencer, and an adaptive distance-driven filter controller.

pub mod eq;
pub mod filter;
pub mod harmony;
pub mod ramp;
pub mod scheduler;
pub mod window;
