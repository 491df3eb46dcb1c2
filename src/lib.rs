//! The composite at the heart of a modular synthesizer voice: an oscillator that
//! bundles a waveform, an amplitude envelope, a frequency envelope and a
//! frequency-warp effect, together with an advisory mute flag.

pub mod oscillator;

pub use oscillator::Oscillator;
