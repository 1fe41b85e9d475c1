use vstd::prelude::*;

use crate::sound::Error;
use crate::sound::NextSample;
use crate::sound::Sound;

verus! {

/// The successor of a sample value, wrapping around at the 16-bit
/// maximum.
pub open spec fn wrapping_inc(v: i16) -> i16 {
    if v == i16::MAX {
        i16::MIN
    } else {
        (v + 1) as i16
    }
}

/// An infinite sawtooth wave that rises by one sample value per frame
/// and wraps around at the 16-bit maximum.
///
/// The same value is emitted once per channel before it increments, so
/// every channel of a frame carries the same amplitude.
pub struct Sawtooth {
    /// The value the next frame emits. Writable so a ramp can be started
    /// anywhere, e.g. right below the wrap-around point.
    pub value: i16,
    pub channel_count: u16,
    pub sample_rate: u32,
    pub current_channel: u16,
}

impl Sawtooth {
    /// A sawtooth wave starting at zero.
    pub fn new(channel_count: u16, sample_rate: u32) -> (r: Sawtooth)
        requires
            channel_count >= 1,
        ensures
            r == (Sawtooth { value: 0i16, channel_count, sample_rate, current_channel: 0u16 }),
            r.wf(),
    {
        Sawtooth { value: 0, channel_count, sample_rate, current_channel: 0 }
    }
}

impl Sound for Sawtooth {
    open spec fn wf(&self) -> bool {
        self.channel_count >= 1 && self.current_channel < self.channel_count
    }

    open spec fn chans_ok(&self, c: u16) -> bool {
        c == self.channel_count
    }

    open spec fn rate_ok(&self, r: u32) -> bool {
        r == self.sample_rate
    }

    open spec fn next_rel(pre: Self, post: Self, r: Result<NextSample, Error>) -> bool {
        &&& r == Ok::<NextSample, Error>(NextSample::Sample(pre.value))
        &&& post.channel_count == pre.channel_count
        &&& post.sample_rate == pre.sample_rate
        &&& if pre.current_channel + 1 >= pre.channel_count {
            post.value == wrapping_inc(pre.value) && post.current_channel == 0
        } else {
            post.value == pre.value && post.current_channel == pre.current_channel + 1
        }
    }

    open spec fn batch_rel(pre: Self, post: Self) -> bool {
        post == pre
    }

    fn channel_count(&self) -> (c: u16) {
        self.channel_count
    }

    fn sample_rate(&self) -> (r: u32) {
        self.sample_rate
    }

    fn next_sample(&mut self) -> (r: Result<NextSample, Error>) {
        let value = self.value;
        if self.current_channel + 1 >= self.channel_count {
            self.current_channel = 0;
            self.value = if self.value == i16::MAX {
                i16::MIN
            } else {
                self.value + 1
            };
        } else {
            self.current_channel = self.current_channel + 1;
        }
        Ok(NextSample::Sample(value))
    }

    fn on_start_of_batch(&mut self) {
    }
}

} // verus!
