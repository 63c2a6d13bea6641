//! The waveforms of the three sounds.

use vstd::prelude::*;
use crate::game::Sound;

verus! {

/// The number of samples in each waveform.
pub const AUDIO_BUFFER_SIZE: usize = 8192;

/// The height of a square wave, in millionths of full scale.
pub const AMPLITUDE: i64 = 100_000;

/// The sample at place `i` of a square wave that changes sign every
/// `half_period` samples and starts high.
pub open spec fn square(i: int, half_period: int) -> int {
    if (i / half_period) % 2 == 0 { AMPLITUDE as int } else { -AMPLITUDE }
}

/// The sample at place `i` of the waveform of `sound`: a square wave of 64
/// samples to the half period for the beep, one of 128 for the boop, and the
/// sum of the two for the bloop.
pub open spec fn sample(sound: Sound, i: int) -> int {
    match sound {
        Sound::Beep => square(i, 64),
        Sound::Boop => square(i, 128),
        Sound::Bloop => square(i, 64) + square(i, 128),
    }
}

/// The sample at place `i` of a square wave that changes sign every
/// `half_period` samples.
fn square_at(i: usize, half_period: usize) -> (r: i64)
    requires
        half_period > 0,
    ensures
        r == square(i as int, half_period as int),
{
    if (i / half_period) % 2 == 0 { AMPLITUDE } else { -AMPLITUDE }
}

impl Sound {
    /// The waveform of the sound, in millionths of full scale.
    pub fn samples(self) -> (r: Vec<i64>)
        ensures
            r@.len() == AUDIO_BUFFER_SIZE,
            forall|i: int| 0 <= i < r@.len() ==> r@[i] == sample(self, i),
    {
        let mut wave: Vec<i64> = Vec::new();
        let mut i: usize = 0;
        while i < AUDIO_BUFFER_SIZE
            invariant
                i <= AUDIO_BUFFER_SIZE,
                wave@.len() == i,
                forall|k: int| 0 <= k < i ==> wave@[k] == sample(self, k),
            decreases AUDIO_BUFFER_SIZE - i,
        {
            let value: i64 = match self {
                Sound::Beep => square_at(i, 64),
                Sound::Boop => square_at(i, 128),
                Sound::Bloop => square_at(i, 64) + square_at(i, 128),
            };
            wave.push(value);
            i += 1;
        }
        wave
    }
}

} // verus!
