use vstd::prelude::*;

use crate::sound::Error;
use crate::sound::NextSample;
use crate::sound::Sound;

verus! {

/// A finite Sound that plays interleaved samples already held in
/// memory, then reports `Finished` forever.
///
/// This is the form in which externally decoded audio (a codec's output)
/// enters the pipeline: a decoder hands over plain samples and the
/// pipeline plays them back.
pub struct MemorySound {
    pub samples: Vec<i16>,
    pub position: usize,
    pub channel_count: u16,
    pub sample_rate: u32,
}

impl MemorySound {
    /// Play `samples` (interleaved across `channel_count` channels) from
    /// the beginning.
    pub fn from_samples(samples: Vec<i16>, channel_count: u16, sample_rate: u32) -> (r:
        MemorySound)
        ensures
            r == (MemorySound { samples, position: 0usize, channel_count, sample_rate }),
            r.wf(),
    {
        let n = samples.len();
        let r = MemorySound { samples, position: 0, channel_count, sample_rate };
        proof {
            assert(r.samples@.len() == n as int);
        }
        r
    }

    /// The number of samples not yet played.
    pub open spec fn remaining(&self) -> int {
        self.samples@.len() - self.position
    }
}

impl Sound for MemorySound {
    open spec fn wf(&self) -> bool {
        self.position <= self.samples@.len() && self.samples@.len() <= usize::MAX
    }

    open spec fn chans_ok(&self, c: u16) -> bool {
        c == self.channel_count
    }

    open spec fn rate_ok(&self, r: u32) -> bool {
        r == self.sample_rate
    }

    open spec fn next_rel(pre: Self, post: Self, r: Result<NextSample, Error>) -> bool {
        if pre.position < pre.samples@.len() {
            &&& post == (MemorySound { position: (pre.position + 1) as usize, ..pre })
            &&& r == Ok::<NextSample, Error>(NextSample::Sample(pre.samples@[pre.position as int]))
        } else {
            post == pre && r == Ok::<NextSample, Error>(NextSample::Finished)
        }
    }

    open spec fn batch_rel(pre: Self, post: Self) -> bool {
        post == pre
    }

    fn channel_count(&self) -> (c: u16) {
        self.channel_count
    }

    fn sample_rate(&self) -> (r: u32) {
        self.sample_rate
    }

    fn next_sample(&mut self) -> (r: Result<NextSample, Error>) {
        if self.position < self.samples.len() {
            let s = self.samples[self.position];
            self.position = self.position + 1;
            Ok(NextSample::Sample(s))
        } else {
            Ok(NextSample::Finished)
        }
    }

    fn on_start_of_batch(&mut self) {
    }
}

} // verus!
