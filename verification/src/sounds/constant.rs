use vstd::prelude::*;

use crate::sound::Error;
use crate::sound::NextSample;
use crate::sound::Sound;
use crate::sounds::DEFAULT_CHANNEL_COUNT;
use crate::sounds::DEFAULT_SAMPLE_RATE;

verus! {

/// An infinite Sound that produces the same sample value forever.
///
/// Its format can be changed while it plays; after a format change the
/// next `next_sample` call reports `MetadataChanged` once before sample
/// output resumes.
pub struct ConstantValueSound {
    pub value: i16,
    pub channel_count: u16,
    pub sample_rate: u32,
    pub metadata_changed: bool,
}

impl ConstantValueSound {
    /// A sound producing `value` forever, with the default format of 2
    /// channels at 44100 samples per second.
    pub fn new(value: i16) -> (r: ConstantValueSound)
        ensures
            r.value == value,
            r.channel_count == DEFAULT_CHANNEL_COUNT,
            r.sample_rate == DEFAULT_SAMPLE_RATE,
            !r.metadata_changed,
    {
        ConstantValueSound {
            value,
            channel_count: DEFAULT_CHANNEL_COUNT,
            sample_rate: DEFAULT_SAMPLE_RATE,
            metadata_changed: false,
        }
    }

    /// Change the reported channel count; the next `next_sample` call
    /// reports `MetadataChanged` once.
    pub fn set_channel_count(&mut self, channel_count: u16)
        ensures
            *final(self) == (ConstantValueSound {
                channel_count,
                metadata_changed: true,
                ..*old(self)
            }),
    {
        self.channel_count = channel_count;
        self.metadata_changed = true;
    }

    /// Change the reported sample rate; the next `next_sample` call
    /// reports `MetadataChanged` once.
    pub fn set_sample_rate(&mut self, sample_rate: u32)
        ensures
            *final(self) == (ConstantValueSound {
                sample_rate,
                metadata_changed: true,
                ..*old(self)
            }),
    {
        self.sample_rate = sample_rate;
        self.metadata_changed = true;
    }
}

impl Sound for ConstantValueSound {
    open spec fn wf(&self) -> bool {
        true
    }

    open spec fn chans_ok(&self, c: u16) -> bool {
        c == self.channel_count
    }

    open spec fn rate_ok(&self, r: u32) -> bool {
        r == self.sample_rate
    }

    open spec fn next_rel(pre: Self, post: Self, r: Result<NextSample, Error>) -> bool {
        if pre.metadata_changed {
            post == (ConstantValueSound { metadata_changed: false, ..pre }) && r == Ok::<
                NextSample,
                Error,
            >(NextSample::MetadataChanged)
        } else {
            post == pre && r == Ok::<NextSample, Error>(NextSample::Sample(pre.value))
        }
    }

    open spec fn batch_rel(pre: Self, post: Self) -> bool {
        post == pre
    }

    fn channel_count(&self) -> (c: u16) {
        self.channel_count
    }

    fn sample_rate(&self) -> (r: u32) {
        self.sample_rate
    }

    fn next_sample(&mut self) -> (r: Result<NextSample, Error>) {
        if self.metadata_changed {
            self.metadata_changed = false;
            Ok(NextSample::MetadataChanged)
        } else {
            Ok(NextSample::Sample(self.value))
        }
    }

    fn on_start_of_batch(&mut self) {
    }
}

} // verus!
