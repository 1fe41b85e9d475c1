use vstd::prelude::*;

use crate::sound::sat_i16;
use crate::sound::Error;
use crate::sound::NextSample;
use crate::sound::Sound;
use crate::wrappers::SetPaused;
use crate::wrappers::SetStopped;

verus! {

/// The gain multiplier that leaves a sound unchanged.
///
/// Gain is a fixed-point value in 1/256ths: `VOLUME_UNIT` (256) leaves
/// samples as they are, 128 halves them and 768 triples them (saturating
/// at the 16-bit bounds).
pub const VOLUME_UNIT: u32 = 256;

/// A sound multiplied by a linear gain adjustment.
pub trait SetVolume: Sound {
    /// What `set_volume` does to the sound's state.
    spec fn set_volume_rel(pre: Self, post: Self, multiplier: u32) -> bool;

    /// Change the gain multiplier, in 1/256ths.
    ///
    /// Samples are multiplied by `multiplier / 256`, so [`VOLUME_UNIT`]
    /// leaves the Sound unchanged, 128 halves the sample values and 512
    /// doubles them (saturating if larger than the 16-bit maximum).
    ///
    /// The change is linear: half the multiplier does not sound half as
    /// loud.
    fn set_volume(&mut self, multiplier: u32)
        requires
            old(self).wf(),
        ensures
            final(self).wf(),
            Self::set_volume_rel(*old(self), *final(self), multiplier),
    ;
}

/// One sample value scaled by a gain of `vol / 256`, before saturation.
///
/// The quotient is truncated towards zero.
pub open spec fn scaled_sample(s: int, vol: int) -> int {
    if s >= 0 {
        (s * vol) / 256
    } else {
        -((-s * vol) / 256)
    }
}

/// How one produced event is transformed by a gain of `vol / 256`:
/// a `Sample` payload is scaled and saturated, everything else passes
/// through untouched.
pub open spec fn volume_mapped(ri: Result<NextSample, Error>, vol: u32) -> Result<
    NextSample,
    Error,
> {
    match ri {
        Ok(NextSample::Sample(s)) => Ok(
            NextSample::Sample(sat_i16(scaled_sample(s as int, vol as int))),
        ),
        _ => ri,
    }
}

/// A wrapper that adjusts the gain of the inner sound.
pub struct AdjustableVolume<S: Sound> {
    pub inner: S,
    pub volume_adjustment: u32,
}

impl<S: Sound> AdjustableVolume<S> {
    /// Wrap `inner` such that its gain can be adjusted.
    ///
    /// The multiplier starts at [`VOLUME_UNIT`] so no adjustment is made.
    ///
    /// See [`SetVolume::set_volume`].
    pub fn new(inner: S) -> (r: Self)
        ensures
            r.inner == inner,
            r.volume_adjustment == VOLUME_UNIT,
    {
        AdjustableVolume { inner, volume_adjustment: VOLUME_UNIT }
    }

    /// Wrap `inner` such that its gain can be adjusted and set an initial
    /// multiplier in 1/256ths.
    ///
    /// See [`SetVolume::set_volume`].
    pub fn new_with_volume(inner: S, volume_adjustment: u32) -> (r: Self)
        ensures
            r.inner == inner,
            r.volume_adjustment == volume_adjustment,
    {
        AdjustableVolume { inner, volume_adjustment }
    }

    /// Get a reference to the wrapped inner Sound.
    pub fn inner(&self) -> (r: &S)
        ensures
            *r == self.inner,
    {
        &self.inner
    }

    /// Get a mutable reference to the wrapped inner Sound.
    pub fn inner_mut(&mut self) -> (r: &mut S)
        ensures
            *r == old(self).inner,
            final(self).inner == *final(r),
            final(self).volume_adjustment == old(self).volume_adjustment,
    {
        &mut self.inner
    }

    /// Unwrap and return the previously wrapped Sound.
    pub fn into_inner(self) -> (r: S)
        ensures
            r == self.inner,
    {
        self.inner
    }

    /// Return the current gain multiplier in 1/256ths. [`VOLUME_UNIT`] is
    /// the default.
    pub fn volume(&self) -> (r: u32)
        ensures
            r == self.volume_adjustment,
    {
        self.volume_adjustment
    }
}

/// Scale one sample by `vol / 256`, truncating towards zero and
/// saturating into the 16-bit domain.
pub(crate) fn scale_sample(s: i16, vol: u32) -> (r: i16)
    ensures
        r == sat_i16(scaled_sample(s as int, vol as int)),
{
    if s >= 0 {
        proof {
            assert((s as int) * (vol as int) <= 32767 * 0xffff_ffff) by (nonlinear_arith)
                requires
                    0 <= s as int <= 32767,
                    0 <= vol as int <= 0xffff_ffff,
            ;
        }
        let wide: u64 = (s as u64) * (vol as u64);
        let q: u64 = wide / 256;
        if q > i16::MAX as u64 {
            i16::MAX
        } else {
            q as i16
        }
    } else {
        proof {
            assert((-(s as int)) * (vol as int) <= 32768 * 0xffff_ffff) by (nonlinear_arith)
                requires
                    0 <= -(s as int) <= 32768,
                    0 <= vol as int <= 0xffff_ffff,
            ;
        }
        let mag: u64 = ((-(s as i32)) as u64) * (vol as u64);
        let q: u64 = mag / 256;
        if q > 32768 {
            i16::MIN
        } else {
            (-(q as i32)) as i16
        }
    }
}

impl<S: Sound> Sound for AdjustableVolume<S> {
    open spec fn wf(&self) -> bool {
        self.inner.wf()
    }

    open spec fn chans_ok(&self, c: u16) -> bool {
        self.inner.chans_ok(c)
    }

    open spec fn rate_ok(&self, r: u32) -> bool {
        self.inner.rate_ok(r)
    }

    open spec fn next_rel(pre: Self, post: Self, r: Result<NextSample, Error>) -> bool {
        post.volume_adjustment == pre.volume_adjustment && exists|ri: Result<NextSample, Error>|
            S::next_rel(pre.inner, post.inner, ri) && r == volume_mapped(
                ri,
                pre.volume_adjustment,
            )
    }

    open spec fn batch_rel(pre: Self, post: Self) -> bool {
        post.volume_adjustment == pre.volume_adjustment && S::batch_rel(pre.inner, post.inner)
    }

    fn channel_count(&self) -> (c: u16) {
        self.inner.channel_count()
    }

    fn sample_rate(&self) -> (r: u32) {
        self.inner.sample_rate()
    }

    fn next_sample(&mut self) -> (r: Result<NextSample, Error>) {
        let ri = self.inner.next_sample();
        let r = match ri {
            Ok(NextSample::Sample(s)) => Ok(
                NextSample::Sample(scale_sample(s, self.volume_adjustment)),
            ),
            _ => ri,
        };
        proof {
            assert(S::next_rel(old(self).inner, self.inner, ri) && r == volume_mapped(
                ri,
                old(self).volume_adjustment,
            ));
        }
        r
    }

    fn on_start_of_batch(&mut self) {
        self.inner.on_start_of_batch()
    }
}

impl<S: Sound> SetVolume for AdjustableVolume<S> {
    open spec fn set_volume_rel(pre: Self, post: Self, multiplier: u32) -> bool {
        post.inner == pre.inner && post.volume_adjustment == multiplier
    }

    fn set_volume(&mut self, multiplier: u32) {
        self.volume_adjustment = multiplier;
    }
}

impl<S: Sound + SetPaused> SetPaused for AdjustableVolume<S> {
    open spec fn set_paused_rel(pre: Self, post: Self, paused: bool) -> bool {
        post.volume_adjustment == pre.volume_adjustment && S::set_paused_rel(
            pre.inner,
            post.inner,
            paused,
        )
    }

    fn set_paused(&mut self, paused: bool) {
        self.inner.set_paused(paused)
    }
}

impl<S: Sound + SetStopped> SetStopped for AdjustableVolume<S> {
    open spec fn set_stopped_rel(pre: Self, post: Self) -> bool {
        post.volume_adjustment == pre.volume_adjustment && S::set_stopped_rel(
            pre.inner,
            post.inner,
        )
    }

    fn set_stopped(&mut self) {
        self.inner.set_stopped()
    }
}

} // verus!
