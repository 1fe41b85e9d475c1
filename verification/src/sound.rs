use vstd::prelude::*;

use crate::wrappers::AdjustableVolume;
use crate::wrappers::Pausable;
use crate::wrappers::Stoppable;

verus! {

/// One step of output from a sample source.
///
/// `Sample` carries one signed 16-bit PCM value for the current channel
/// slot; values for the channels of one frame are interleaved across
/// consecutive calls. `MetadataChanged` announces that `channel_count`
/// and/or `sample_rate` changed and both must be re-read before further
/// `Sample` events are interpreted. `Paused` means no audio was produced
/// this tick but the source stays alive. `Finished` means the source has
/// ended (for a mixer it only means "no active member this tick").
#[derive(Clone, Copy, Debug, PartialEq, Eq, Structural)]
pub enum NextSample {
    Sample(i16),
    MetadataChanged,
    Paused,
    Finished,
}

/// An unrecoverable per-source production failure.
///
/// A failing source is removed by its owner and the error is handed to the
/// caller exactly once; composites keep playing with their remaining
/// members.
#[derive(Clone, Copy, Debug, PartialEq, Eq, Structural)]
pub struct Error;

/// Saturate a wide intermediate value into the 16-bit sample domain.
pub open spec fn sat_i16(v: int) -> i16 {
    if v > i16::MAX as int {
        i16::MAX
    } else if v < i16::MIN as int {
        i16::MIN
    } else {
        v as i16
    }
}

/// The capability every sound source implements: report its format,
/// produce one sample event per call, and receive a once-per-batch
/// notification.
///
/// Each implementation describes its behaviour with four spec functions:
/// `chans_ok`/`rate_ok` say which values the format queries may report,
/// and `next_rel`/`batch_rel` are the transition relations of the two
/// mutating calls. For deterministic sources the relations pin the result
/// and the new state exactly; a source whose state is shared with code
/// outside the render path (a controllable handle) is necessarily
/// nondeterministic from the render side.
pub trait Sound: Sized {
    /// Structural well-formedness, established by constructors and
    /// preserved by every call.
    spec fn wf(&self) -> bool;

    /// Which channel counts `channel_count` may report.
    spec fn chans_ok(&self, c: u16) -> bool;

    /// Which sample rates `sample_rate` may report.
    spec fn rate_ok(&self, r: u32) -> bool;

    /// The transition relation of `next_sample`.
    spec fn next_rel(pre: Self, post: Self, r: Result<NextSample, Error>) -> bool;

    /// The transition relation of `on_start_of_batch`.
    spec fn batch_rel(pre: Self, post: Self) -> bool;

    /// Pure query: the number of interleaved channels, stable between
    /// construction/`MetadataChanged` events.
    fn channel_count(&self) -> (c: u16)
        requires
            self.wf(),
        ensures
            self.chans_ok(c),
    ;

    /// Pure query: samples per second per channel, stable between
    /// construction/`MetadataChanged` events.
    fn sample_rate(&self) -> (r: u32)
        requires
            self.wf(),
        ensures
            self.rate_ok(r),
    ;

    /// Produce the next sample event. On `Err` the source is unusable and
    /// must be discarded by its owner.
    fn next_sample(&mut self) -> (r: Result<NextSample, Error>)
        requires
            old(self).wf(),
        ensures
            final(self).wf(),
            Self::next_rel(*old(self), *final(self), r),
    ;

    /// Notification sent once before each contiguous run of `next_sample`
    /// calls; composites forward it to all of their members.
    fn on_start_of_batch(&mut self)
        requires
            old(self).wf(),
        ensures
            final(self).wf(),
            Self::batch_rel(*old(self), *final(self)),
    ;

    /// Wrap this source so it can be stopped.
    fn stoppable(self) -> (r: Stoppable<Self>)
        default_ensures
            r.inner == self,
            !r.stopped,
    {
        Stoppable { inner: self, stopped: false }
    }

    /// Wrap this source so it can be paused.
    fn pausable(self) -> (r: Pausable<Self>)
        default_ensures
            r.inner == self,
            !r.paused,
    {
        Pausable { inner: self, paused: false }
    }

    /// Wrap this source so its gain can be adjusted.
    fn with_adjustable_volume(self) -> (r: AdjustableVolume<Self>)
        default_ensures
            r.inner == self,
            r.volume_adjustment == crate::wrappers::VOLUME_UNIT,
    {
        AdjustableVolume { inner: self, volume_adjustment: crate::wrappers::VOLUME_UNIT }
    }
}

} // verus!
