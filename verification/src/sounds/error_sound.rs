use vstd::prelude::*;

use crate::sound::Error;
use crate::sound::NextSample;
use crate::sound::Sound;

verus! {

/// A Sound whose production always fails.
///
/// It stands in for a source whose backing data turned out to be
/// unreadable: every `next_sample` call reports the error, and an owning
/// composite is expected to drop it and carry on with its remaining
/// members.
pub struct ErrorSound {
    pub channel_count: u16,
    pub sample_rate: u32,
}

impl ErrorSound {
    /// Create a sound that fails on every production step.
    pub fn new(channel_count: u16, sample_rate: u32) -> (r: ErrorSound)
        ensures
            r.channel_count == channel_count,
            r.sample_rate == sample_rate,
    {
        ErrorSound { channel_count, sample_rate }
    }
}

impl Sound for ErrorSound {
    open spec fn wf(&self) -> bool {
        true
    }

    open spec fn chans_ok(&self, c: u16) -> bool {
        c == self.channel_count
    }

    open spec fn rate_ok(&self, r: u32) -> bool {
        r == self.sample_rate
    }

    open spec fn next_rel(pre: Self, post: Self, r: Result<NextSample, Error>) -> bool {
        post == pre && r == Err::<NextSample, Error>(Error)
    }

    open spec fn batch_rel(pre: Self, post: Self) -> bool {
        post == pre
    }

    fn channel_count(&self) -> (c: u16) {
        self.channel_count
    }

    fn sample_rate(&self) -> (r: u32) {
        self.sample_rate
    }

    fn next_sample(&mut self) -> (r: Result<NextSample, Error>) {
        Err(Error)
    }

    fn on_start_of_batch(&mut self) {
    }
}

} // verus!
