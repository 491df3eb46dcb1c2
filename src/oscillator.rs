//! The oscillator composite.
//!
//! Each of the four capability slots is generic and independently replaceable:
//! a builder consumes the oscillator and returns a new one, possibly of a
//! different type, in which exactly one slot holds the new value and every other
//! field is carried over unchanged.

use vstd::prelude::*;

verus! {

/// The fundamental component of a synthesizer.
#[derive(Debug, Clone)]
pub struct Oscillator<W, A, F, FW> {
    /// Waveform used for phase movement.
    pub waveform: W,
    /// Envelope for amplitude interpolation.
    pub amplitude: A,
    /// Envelope for frequency interpolation.
    pub frequency: F,
    /// A type used for warping the oscillator's frequency.
    pub freq_warp: FW,
    /// Whether or not the oscillator is currently muted.
    pub is_muted: bool,
}

impl<W, A, F, FW> Oscillator<W, A, F, FW> {
    /// Builds an oscillator from one value of each capability; it starts unmuted.
    pub fn new(waveform: W, amplitude: A, frequency: F, freq_warp: FW) -> (r: Oscillator<W, A, F, FW>)
        ensures
            r.waveform == waveform,
            r.amplitude == amplitude,
            r.frequency == frequency,
            r.freq_warp == freq_warp,
            !r.is_muted,
    {
        Oscillator { waveform, amplitude, frequency, freq_warp, is_muted: false }
    }

    /// Replaces the waveform, keeping the envelopes, the warp and the mute flag.
    pub fn waveform<WNew>(self, waveform: WNew) -> (r: Oscillator<WNew, A, F, FW>)
        ensures
            r.waveform == waveform,
            r.amplitude == self.amplitude,
            r.frequency == self.frequency,
            r.freq_warp == self.freq_warp,
            r.is_muted == self.is_muted,
    {
        let Oscillator { amplitude, frequency, freq_warp, is_muted, .. } = self;
        Oscillator { waveform, amplitude, frequency, freq_warp, is_muted }
    }

    /// Replaces the amplitude envelope, keeping every other field.
    pub fn amplitude<ANew>(self, amplitude: ANew) -> (r: Oscillator<W, ANew, F, FW>)
        ensures
            r.waveform == self.waveform,
            r.amplitude == amplitude,
            r.frequency == self.frequency,
            r.freq_warp == self.freq_warp,
            r.is_muted == self.is_muted,
    {
        let Oscillator { waveform, frequency, freq_warp, is_muted, .. } = self;
        Oscillator { waveform, amplitude, frequency, freq_warp, is_muted }
    }

    /// Replaces the frequency envelope, keeping every other field.
    pub fn frequency<FNew>(self, frequency: FNew) -> (r: Oscillator<W, A, FNew, FW>)
        ensures
            r.waveform == self.waveform,
            r.amplitude == self.amplitude,
            r.frequency == frequency,
            r.freq_warp == self.freq_warp,
            r.is_muted == self.is_muted,
    {
        let Oscillator { waveform, amplitude, freq_warp, is_muted, .. } = self;
        Oscillator { waveform, amplitude, frequency, freq_warp, is_muted }
    }

    /// Replaces the frequency-warp effect, keeping every other field.
    pub fn freq_warp<FWNew>(self, freq_warp: FWNew) -> (r: Oscillator<W, A, F, FWNew>)
        ensures
            r.waveform == self.waveform,
            r.amplitude == self.amplitude,
            r.frequency == self.frequency,
            r.freq_warp == freq_warp,
            r.is_muted == self.is_muted,
    {
        let Oscillator { waveform, amplitude, frequency, is_muted, .. } = self;
        Oscillator { waveform, amplitude, frequency, freq_warp, is_muted }
    }
}

} // verus!
