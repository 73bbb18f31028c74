//! One tone event: a sine wave of fixed length and gain, with a short fade-in
//! window and a fade-out window over the rest of its length, so that it
//! neither starts nor stops with a click.

use vstd::prelude::*;

verus! {

/// Length of every tone, in milliseconds.
pub const TONE_DURATION_MS: u64 = 100;

/// Length of the fade-in at the start of every tone, in milliseconds.
pub const FADE_DURATION_MS: u64 = 1;

/// Linear gain of every tone, in percent of full amplitude.
pub const TONE_GAIN_PERCENT: u32 = 50;

/// What a renderer needs to know to sound one tone.
#[derive(Clone, Copy, Debug, PartialEq, Eq, Structural)]
pub struct Tone {
    /// Frequency of the sine wave, in Hz.
    pub frequency: u32,
    /// Total length, in milliseconds.
    pub duration_ms: u64,
    /// Linear gain, in percent of full amplitude.
    pub gain_percent: u32,
    /// Length of the fade-in window at the start, in milliseconds.
    pub fade_in_ms: u64,
    /// Length of the fade-out window, in milliseconds: what is left of the
    /// tone's length once the fade-in window is taken off.
    pub fade_out_ms: u64,
}

impl Tone {
    /// Both fade windows have a length, together they are exactly as long
    /// as the tone, and the gain never amplifies.
    pub open spec fn well_shaped(&self) -> bool {
        &&& 0 < self.fade_in_ms
        &&& 0 < self.fade_out_ms
        &&& self.fade_in_ms + self.fade_out_ms == self.duration_ms
        &&& self.gain_percent <= 100
    }
}

/// The tone that sounds `frequency`: only the frequency varies from tone to
/// tone.
pub open spec fn tone_at(frequency: u32) -> Tone {
    Tone {
        frequency,
        duration_ms: 100,
        gain_percent: 50,
        fade_in_ms: 1,
        fade_out_ms: 99,
    }
}

/// Makes the tone event for one frequency in Hz.
pub fn new_tone(tone_freq: u32) -> (tone: Tone)
    ensures
        tone == tone_at(tone_freq),
        tone.well_shaped(),
{
    Tone {
        frequency: tone_freq,
        duration_ms: TONE_DURATION_MS,
        gain_percent: TONE_GAIN_PERCENT,
        fade_in_ms: FADE_DURATION_MS,
        fade_out_ms: TONE_DURATION_MS - FADE_DURATION_MS,
    }
}

/// Whatever its frequency, a tone lasts the same 100 ms at half amplitude,
/// with a fade-in window of one millisecond and a fade-out window of the
/// other 99.
pub proof fn lemma_tone_shape_is_fixed(frequency: u32)
    ensures
        tone_at(frequency).frequency == frequency,
        tone_at(frequency).duration_ms == TONE_DURATION_MS == 100,
        tone_at(frequency).gain_percent == TONE_GAIN_PERCENT == 50,
        tone_at(frequency).fade_in_ms == FADE_DURATION_MS == 1,
        tone_at(frequency).fade_out_ms == TONE_DURATION_MS - FADE_DURATION_MS == 99,
        tone_at(frequency).well_shaped(),
{
}

} // verus!
