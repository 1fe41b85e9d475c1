use vstd::prelude::*;

use crate::sound::Error;
use crate::sound::NextSample;
use crate::sound::Sound;
use crate::wrappers::SetStopped;
use crate::wrappers::SetVolume;

verus! {

/// A Sound which can be paused.
pub trait SetPaused: Sound {
    /// What `set_paused` does to the sound's state.
    spec fn set_paused_rel(pre: Self, post: Self, paused: bool) -> bool;

    /// Pause or unpause the sound.
    fn set_paused(&mut self, paused: bool)
        requires
            old(self).wf(),
        ensures
            final(self).wf(),
            Self::set_paused_rel(*old(self), *final(self), paused),
    ;
}

/// A wrapper to make a Sound pausable.
///
/// While paused it returns `NextSample::Paused` without consuming a
/// sample from the inner sound, and resumes pass-through when unpaused.
pub struct Pausable<S: Sound> {
    pub inner: S,
    pub paused: bool,
}

impl<S: Sound> Pausable<S> {
    /// Wrap `inner` and allow it to be paused via
    /// [`set_paused`](SetPaused::set_paused).
    pub fn new(inner: S) -> (r: Self)
        ensures
            r.inner == inner,
            !r.paused,
    {
        Pausable { inner, paused: false }
    }

    /// Get a reference to the wrapped inner Sound.
    pub fn inner(&self) -> (r: &S)
        ensures
            *r == self.inner,
    {
        &self.inner
    }

    /// Get a mutable reference to the wrapped inner Sound.
    pub fn inner_mut(&mut self) -> (r: &mut S)
        ensures
            *r == old(self).inner,
            final(self).inner == *final(r),
            final(self).paused == old(self).paused,
    {
        &mut self.inner
    }

    /// Unwrap and return the previously wrapped Sound.
    pub fn into_inner(self) -> (r: S)
        ensures
            r == self.inner,
    {
        self.inner
    }

    /// Return whether the Sound is paused.
    pub fn paused(&self) -> (r: bool)
        ensures
            r == self.paused,
    {
        self.paused
    }
}

impl<S: Sound> Sound for Pausable<S> {
    open spec fn wf(&self) -> bool {
        self.inner.wf()
    }

    open spec fn chans_ok(&self, c: u16) -> bool {
        self.inner.chans_ok(c)
    }

    open spec fn rate_ok(&self, r: u32) -> bool {
        self.inner.rate_ok(r)
    }

    open spec fn next_rel(pre: Self, post: Self, r: Result<NextSample, Error>) -> bool {
        if pre.paused {
            post == pre && r == Ok::<NextSample, Error>(NextSample::Paused)
        } else {
            !post.paused && S::next_rel(pre.inner, post.inner, r)
        }
    }

    open spec fn batch_rel(pre: Self, post: Self) -> bool {
        post.paused == pre.paused && S::batch_rel(pre.inner, post.inner)
    }

    fn channel_count(&self) -> (c: u16) {
        self.inner.channel_count()
    }

    fn sample_rate(&self) -> (r: u32) {
        self.inner.sample_rate()
    }

    fn next_sample(&mut self) -> (r: Result<NextSample, Error>) {
        if self.paused {
            return Ok(NextSample::Paused);
        }
        self.inner.next_sample()
    }

    fn on_start_of_batch(&mut self) {
        self.inner.on_start_of_batch()
    }
}

impl<S: Sound> SetPaused for Pausable<S> {
    open spec fn set_paused_rel(pre: Self, post: Self, paused: bool) -> bool {
        post.inner == pre.inner && post.paused == paused
    }

    fn set_paused(&mut self, paused: bool) {
        self.paused = paused;
    }
}

impl<S: Sound + SetVolume> SetVolume for Pausable<S> {
    open spec fn set_volume_rel(pre: Self, post: Self, multiplier: u32) -> bool {
        post.paused == pre.paused && S::set_volume_rel(pre.inner, post.inner, multiplier)
    }

    fn set_volume(&mut self, multiplier: u32) {
        self.inner.set_volume(multiplier)
    }
}

impl<S: Sound + SetStopped> SetStopped for Pausable<S> {
    open spec fn set_stopped_rel(pre: Self, post: Self) -> bool {
        post.paused == pre.paused && S::set_stopped_rel(pre.inner, post.inner)
    }

    fn set_stopped(&mut self) {
        self.inner.set_stopped()
    }
}

} // verus!
