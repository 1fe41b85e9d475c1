use vstd::prelude::*;

use crate::sound::Error;
use crate::sound::NextSample;
use crate::sound::Sound;

verus! {

/// A Sound that immediately and always returns Finished.
pub struct Empty {
    pub channel_count: u16,
    pub sample_rate: u32,
}

impl Empty {
    /// Create a new sound that will immediately and always return
    /// Finished.
    pub fn new(channel_count: u16, sample_rate: u32) -> (r: Empty)
        ensures
            r.channel_count == channel_count,
            r.sample_rate == sample_rate,
    {
        Empty { channel_count, sample_rate }
    }
}

impl Sound for Empty {
    open spec fn wf(&self) -> bool {
        true
    }

    open spec fn chans_ok(&self, c: u16) -> bool {
        c == self.channel_count
    }

    open spec fn rate_ok(&self, r: u32) -> bool {
        r == self.sample_rate
    }

    open spec fn next_rel(pre: Self, post: Self, r: Result<NextSample, Error>) -> bool {
        post == pre && r == Ok::<NextSample, Error>(NextSample::Finished)
    }

    open spec fn batch_rel(pre: Self, post: Self) -> bool {
        post == pre
    }

    fn channel_count(&self) -> (c: u16) {
        self.channel_count
    }

    fn sample_rate(&self) -> (r: u32) {
        self.sample_rate
    }

    fn next_sample(&mut self) -> (r: Result<NextSample, Error>) {
        Ok(NextSample::Finished)
    }

    fn on_start_of_batch(&mut self) {
    }
}

} // verus!
