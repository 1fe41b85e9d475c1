use vstd::prelude::*;

use crate::sound::Error;
use crate::sound::NextSample;
use crate::sound::Sound;
use crate::wrappers::SetPaused;
use crate::wrappers::SetVolume;

verus! {

/// A Sound which can be stopped.
pub trait SetStopped: Sound {
    /// What `set_stopped` does to the sound's state.
    spec fn set_stopped_rel(pre: Self, post: Self) -> bool;

    /// Stop the sound for good.
    fn set_stopped(&mut self)
        requires
            old(self).wf(),
        ensures
            final(self).wf(),
            Self::set_stopped_rel(*old(self), *final(self)),
    ;
}

/// A wrapper to make a Sound stoppable.
///
/// A stopped sound always returns `NextSample::Finished` and its inner
/// sound is never polled again.
pub struct Stoppable<S: Sound> {
    pub inner: S,
    pub stopped: bool,
}

impl<S: Sound> Stoppable<S> {
    /// Wrap `inner` and allow it to be stopped via
    /// [`set_stopped`](SetStopped::set_stopped).
    pub fn new(inner: S) -> (r: Self)
        ensures
            r.inner == inner,
            !r.stopped,
    {
        Stoppable { inner, stopped: false }
    }

    /// Get a reference to the wrapped inner Sound.
    pub fn inner(&self) -> (r: &S)
        ensures
            *r == self.inner,
    {
        &self.inner
    }

    /// Get a mutable reference to the wrapped inner Sound.
    pub fn inner_mut(&mut self) -> (r: &mut S)
        ensures
            *r == old(self).inner,
            final(self).inner == *final(r),
            final(self).stopped == old(self).stopped,
    {
        &mut self.inner
    }

    /// Unwrap and return the previously wrapped Sound.
    pub fn into_inner(self) -> (r: S)
        ensures
            r == self.inner,
    {
        self.inner
    }

    /// Return whether the Sound is stopped.
    pub fn stopped(&self) -> (r: bool)
        ensures
            r == self.stopped,
    {
        self.stopped
    }
}

impl<S: Sound> Sound for Stoppable<S> {
    open spec fn wf(&self) -> bool {
        self.inner.wf()
    }

    open spec fn chans_ok(&self, c: u16) -> bool {
        self.inner.chans_ok(c)
    }

    open spec fn rate_ok(&self, r: u32) -> bool {
        self.inner.rate_ok(r)
    }

    open spec fn next_rel(pre: Self, post: Self, r: Result<NextSample, Error>) -> bool {
        if pre.stopped {
            post == pre && r == Ok::<NextSample, Error>(NextSample::Finished)
        } else {
            !post.stopped && S::next_rel(pre.inner, post.inner, r)
        }
    }

    open spec fn batch_rel(pre: Self, post: Self) -> bool {
        post.stopped == pre.stopped && S::batch_rel(pre.inner, post.inner)
    }

    fn channel_count(&self) -> (c: u16) {
        self.inner.channel_count()
    }

    fn sample_rate(&self) -> (r: u32) {
        self.inner.sample_rate()
    }

    fn next_sample(&mut self) -> (r: Result<NextSample, Error>) {
        if self.stopped {
            return Ok(NextSample::Finished);
        }
        self.inner.next_sample()
    }

    fn on_start_of_batch(&mut self) {
        self.inner.on_start_of_batch()
    }
}

impl<S: Sound> SetStopped for Stoppable<S> {
    open spec fn set_stopped_rel(pre: Self, post: Self) -> bool {
        post.inner == pre.inner && post.stopped
    }

    fn set_stopped(&mut self) {
        self.stopped = true;
    }
}

impl<S: Sound + SetVolume> SetVolume for Stoppable<S> {
    open spec fn set_volume_rel(pre: Self, post: Self, multiplier: u32) -> bool {
        post.stopped == pre.stopped && S::set_volume_rel(pre.inner, post.inner, multiplier)
    }

    fn set_volume(&mut self, multiplier: u32) {
        self.inner.set_volume(multiplier)
    }
}

impl<S: Sound + SetPaused> SetPaused for Stoppable<S> {
    open spec fn set_paused_rel(pre: Self, post: Self, paused: bool) -> bool {
        post.stopped == pre.stopped && S::set_paused_rel(pre.inner, post.inner, paused)
    }

    fn set_paused(&mut self, paused: bool) {
        self.inner.set_paused(paused)
    }
}

/// Once stopped, a sound stays stopped: every later `next_sample` call
/// returns `Finished` and never polls the inner sound again.
///
/// This is the inductive step: any state with `stopped` set answers
/// `Finished` and remains stopped, so by induction every subsequent call
/// does too.
pub proof fn lemma_stopped_stays_finished<S: Sound>(
    pre: Stoppable<S>,
    post: Stoppable<S>,
    r: Result<NextSample, Error>,
)
    requires
        pre.stopped,
        <Stoppable<S> as Sound>::next_rel(pre, post, r),
    ensures
        r == Ok::<NextSample, Error>(NextSample::Finished),
        post == pre,
        post.stopped,
{
}

} // verus!
