use vstd::prelude::*;

use crate::sound::Error;
use crate::sound::NextSample;
use crate::sound::Sound;
use crate::sounds::ConstantValueSound;
use crate::sounds::Empty;
use crate::sounds::ErrorSound;
use crate::sounds::MemorySound;
use crate::sounds::Sawtooth;
use crate::sounds::SoundList;
use crate::sounds::DEFAULT_CHANNEL_COUNT;
use crate::sounds::DEFAULT_SAMPLE_RATE;
use crate::wrappers::scale_sample;
use crate::wrappers::volume_mapped;
use crate::wrappers::AdjustableVolume;
use crate::wrappers::apply_list_ops_rel;
use crate::wrappers::drained_to;
use crate::wrappers::ops_wf;
use crate::wrappers::ControlOp;
use crate::wrappers::Controllable;
use crate::wrappers::Pausable;
use crate::wrappers::Stoppable;

verus! {

/// One owned node of a sound graph.
///
/// Composition is by ownership: a composite or wrapper exclusively owns
/// its members, so the set of node shapes is closed and each node's
/// behaviour is described by the recursive relations below. A mixer is
/// the root of a sound graph and is not a node inside one; a controlled
/// mixer likewise stays at the root.
pub enum AnySound {
    Empty(Empty),
    Constant(ConstantValueSound),
    Sawtooth(Sawtooth),
    Memory(MemorySound),
    ErrorSound(ErrorSound),
    List(Box<SoundList>),
    ControlledList(Box<Controllable<SoundList>>),
    Volume(Box<AdjustableVolume<AnySound>>),
    Stop(Box<Stoppable<AnySound>>),
    Pause(Box<Pausable<AnySound>>),
}

/// Always true; used only as a quantifier trigger.
///
/// A composite's transition relation quantifies over the transition its
/// member made. The member relations are recursive, which makes them
/// unusable as matching triggers, so this marker names the instance
/// instead.
pub open spec fn poll_witness(pre: AnySound, post: AnySound, r: Result<NextSample, Error>) -> bool {
    true
}

/// Every member of a sequence of sound graph nodes is well-formed.
pub open spec fn all_wf(sounds: Seq<AnySound>) -> bool
    decreases sounds,
{
    forall|i: int| 0 <= i < sounds.len() ==> any_wf(#[trigger] sounds[i])
}

/// Which channel counts the sequencer may report: its front member's,
/// or the fixed fallback when it is empty.
pub open spec fn list_chans_ok(l: SoundList, c: u16) -> bool
    decreases l,
{
    if l.sounds@.len() == 0 {
        c == DEFAULT_CHANNEL_COUNT
    } else {
        any_chans_ok(l.sounds@[0], c)
    }
}

/// Which sample rates the sequencer may report: its front member's, or
/// the fixed fallback when it is empty.
pub open spec fn list_rate_ok(l: SoundList, r: u32) -> bool
    decreases l,
{
    if l.sounds@.len() == 0 {
        r == DEFAULT_SAMPLE_RATE
    } else {
        any_rate_ok(l.sounds@[0], r)
    }
}

/// The transition relation of `next_sample` on a sequencer.
///
/// Only the front member is ever polled. A front member that reports
/// `Finished` or fails is removed and never polled again; the members
/// behind it keep their order. Removing a finished front member yields
/// `MetadataChanged` when a next member exists (its format may differ)
/// and `Finished` when none does.
pub open spec fn list_next_rel(pre: SoundList, post: SoundList, r: Result<NextSample, Error>) -> bool
    decreases pre,
{
    if pre.sounds@.len() == 0 {
        post == pre && r == Ok::<NextSample, Error>(NextSample::Finished)
    } else if pre.was_empty {
        post == (SoundList { was_empty: false, ..pre }) && r == Ok::<NextSample, Error>(
            NextSample::MetadataChanged,
        )
    } else {
        !post.was_empty && {
            ||| {
                &&& exists|f2: AnySound|
                    #[trigger] poll_witness(
                        pre.sounds@[0],
                        f2,
                        Ok::<NextSample, Error>(NextSample::Finished),
                    ) && any_next_rel(
                        pre.sounds@[0],
                        f2,
                        Ok::<NextSample, Error>(NextSample::Finished),
                    )
                &&& post.sounds@ == pre.sounds@.remove(0)
                &&& r == Ok::<NextSample, Error>(
                    if pre.sounds@.len() > 1 {
                        NextSample::MetadataChanged
                    } else {
                        NextSample::Finished
                    },
                )
            }
            ||| {
                &&& exists|f2: AnySound|
                    #[trigger] poll_witness(pre.sounds@[0], f2, r) && any_next_rel(
                        pre.sounds@[0],
                        f2,
                        r,
                    )
                &&& r matches Err(_)
                &&& post.sounds@ == pre.sounds@.remove(0)
            }
            ||| {
                &&& exists|f2: AnySound|
                    #[trigger] poll_witness(pre.sounds@[0], f2, r) && any_next_rel(
                        pre.sounds@[0],
                        f2,
                        r,
                    ) && post.sounds@ == pre.sounds@.update(0, f2)
                &&& r matches Ok(v) && v != NextSample::Finished
            }
        }
    }
}

/// The transition relation of `on_start_of_batch` on a sequencer: the
/// notification is forwarded to every member, in place.
pub open spec fn list_batch_rel(pre: SoundList, post: SoundList) -> bool
    decreases pre,
{
    &&& post.was_empty == pre.was_empty
    &&& post.sounds@.len() == pre.sounds@.len()
    &&& forall|i: int|
        0 <= i < pre.sounds@.len() ==> any_batch_rel(
            #[trigger] pre.sounds@[i],
            post.sounds@[i],
        )
}

pub(crate) proof fn lemma_list_step_drop(
    pre: SoundList,
    post: SoundList,
    f2: AnySound,
    rf: Result<NextSample, Error>,
    r: Result<NextSample, Error>,
)
    requires
        pre.sounds@.len() > 0,
        !pre.was_empty,
        !post.was_empty,
        any_next_rel(pre.sounds@[0], f2, rf),
        post.sounds@ == pre.sounds@.remove(0),
        rf matches Err(_) ==> r == rf,
        rf == Ok::<NextSample, Error>(NextSample::Finished) ==> r == Ok::<NextSample, Error>(
            if pre.sounds@.len() > 1 {
                NextSample::MetadataChanged
            } else {
                NextSample::Finished
            },
        ),
        (rf matches Err(_)) || rf == Ok::<NextSample, Error>(NextSample::Finished),
    ensures
        list_next_rel(pre, post, r),
{
    assert(poll_witness(pre.sounds@[0], f2, rf));
}

pub(crate) proof fn lemma_list_step_passthrough(
    pre: SoundList,
    post: SoundList,
    f2: AnySound,
    r: Result<NextSample, Error>,
)
    requires
        pre.sounds@.len() > 0,
        !pre.was_empty,
        !post.was_empty,
        any_next_rel(pre.sounds@[0], f2, r),
        post.sounds@ == pre.sounds@.update(0, f2),
        r matches Ok(v) && v != NextSample::Finished,
    ensures
        list_next_rel(pre, post, r),
{
    assert(poll_witness(pre.sounds@[0], f2, r));
}

/// Structural well-formedness of a sound graph node and everything it
/// owns.
pub open spec fn any_wf(s: AnySound) -> bool
    decreases s,
{
    match s {
        AnySound::Empty(e) => e.wf(),
        AnySound::Constant(c) => c.wf(),
        AnySound::Sawtooth(w) => w.wf(),
        AnySound::Memory(m) => m.wf(),
        AnySound::ErrorSound(e) => e.wf(),
        AnySound::List(b) => all_wf((*b).sounds@),
        AnySound::ControlledList(b) => all_wf((*b).collection.sounds@),
        AnySound::Volume(b) => any_wf((*b).inner),
        AnySound::Stop(b) => any_wf((*b).inner),
        AnySound::Pause(b) => any_wf((*b).inner),
    }
}

/// Which channel counts the node may report.
pub open spec fn any_chans_ok(s: AnySound, c: u16) -> bool
    decreases s,
{
    match s {
        AnySound::Empty(e) => e.chans_ok(c),
        AnySound::Constant(n) => n.chans_ok(c),
        AnySound::Sawtooth(w) => w.chans_ok(c),
        AnySound::Memory(m) => m.chans_ok(c),
        AnySound::ErrorSound(e) => e.chans_ok(c),
        AnySound::List(b) => list_chans_ok(*b, c),
        AnySound::ControlledList(b) => list_chans_ok((*b).collection, c),
        AnySound::Volume(b) => any_chans_ok((*b).inner, c),
        AnySound::Stop(b) => any_chans_ok((*b).inner, c),
        AnySound::Pause(b) => any_chans_ok((*b).inner, c),
    }
}

/// Which sample rates the node may report.
pub open spec fn any_rate_ok(s: AnySound, r: u32) -> bool
    decreases s,
{
    match s {
        AnySound::Empty(e) => e.rate_ok(r),
        AnySound::Constant(n) => n.rate_ok(r),
        AnySound::Sawtooth(w) => w.rate_ok(r),
        AnySound::Memory(m) => m.rate_ok(r),
        AnySound::ErrorSound(e) => e.rate_ok(r),
        AnySound::List(b) => list_rate_ok(*b, r),
        AnySound::ControlledList(b) => list_rate_ok((*b).collection, r),
        AnySound::Volume(b) => any_rate_ok((*b).inner, r),
        AnySound::Stop(b) => any_rate_ok((*b).inner, r),
        AnySound::Pause(b) => any_rate_ok((*b).inner, r),
    }
}

/// The transition relation of `next_sample` on a sound graph node.
///
/// Wrapper arms restate the wrapper relations over `AnySound` members so
/// that the recursion stays within these functions.
pub open spec fn any_next_rel(pre: AnySound, post: AnySound, r: Result<NextSample, Error>) -> bool
    decreases pre,
{
    match pre {
        AnySound::Empty(e) => post matches AnySound::Empty(e2) && <Empty as Sound>::next_rel(
            e,
            e2,
            r,
        ),
        AnySound::Constant(c) => post matches AnySound::Constant(c2)
            && <ConstantValueSound as Sound>::next_rel(c, c2, r),
        AnySound::Sawtooth(w) => post matches AnySound::Sawtooth(w2) && <Sawtooth as Sound>::next_rel(
            w,
            w2,
            r,
        ),
        AnySound::Memory(m) => post matches AnySound::Memory(m2) && <MemorySound as Sound>::next_rel(
            m,
            m2,
            r,
        ),
        AnySound::ErrorSound(e) => post matches AnySound::ErrorSound(e2)
            && <ErrorSound as Sound>::next_rel(e, e2, r),
        AnySound::List(b) => post matches AnySound::List(b2) && list_next_rel(*b, *b2, r),
        AnySound::ControlledList(b) => post matches AnySound::ControlledList(b2) && {
            &&& (*b2).ops == (*b).ops
            &&& list_next_rel((*b).collection, (*b2).collection, r)
        },
        AnySound::Volume(b) => post matches AnySound::Volume(b2) && {
            &&& (*b2).volume_adjustment == (*b).volume_adjustment
            &&& exists|ri: Result<NextSample, Error>|
                any_next_rel((*b).inner, (*b2).inner, ri) && r == volume_mapped(
                    ri,
                    (*b).volume_adjustment,
                )
        },
        AnySound::Stop(b) => post matches AnySound::Stop(b2) && {
            if (*b).stopped {
                *b2 == *b && r == Ok::<NextSample, Error>(NextSample::Finished)
            } else {
                !(*b2).stopped && any_next_rel((*b).inner, (*b2).inner, r)
            }
        },
        AnySound::Pause(b) => post matches AnySound::Pause(b2) && {
            if (*b).paused {
                *b2 == *b && r == Ok::<NextSample, Error>(NextSample::Paused)
            } else {
                !(*b2).paused && any_next_rel((*b).inner, (*b2).inner, r)
            }
        },
    }
}

/// The transition relation of `on_start_of_batch` on a sound graph node.
pub open spec fn any_batch_rel(pre: AnySound, post: AnySound) -> bool
    decreases pre,
{
    match pre {
        AnySound::Empty(e) => post matches AnySound::Empty(e2) && <Empty as Sound>::batch_rel(
            e,
            e2,
        ),
        AnySound::Constant(c) => post matches AnySound::Constant(c2)
            && <ConstantValueSound as Sound>::batch_rel(c, c2),
        AnySound::Sawtooth(w) => post matches AnySound::Sawtooth(w2)
            && <Sawtooth as Sound>::batch_rel(w, w2),
        AnySound::Memory(m) => post matches AnySound::Memory(m2)
            && <MemorySound as Sound>::batch_rel(m, m2),
        AnySound::ErrorSound(e) => post matches AnySound::ErrorSound(e2)
            && <ErrorSound as Sound>::batch_rel(e, e2),
        AnySound::List(b) => post matches AnySound::List(b2) && list_batch_rel(*b, *b2),
        AnySound::ControlledList(b) => post matches AnySound::ControlledList(b2) && {
            &&& (*b2).ops == (*b).ops
            &&& exists|ops: Seq<ControlOp>, mid: SoundList|
                #[trigger] drained_to(ops, mid) && ops_wf(ops) && list_batch_rel(
                    (*b).collection,
                    mid,
                ) && apply_list_ops_rel(mid, ops, (*b2).collection)
        },
        AnySound::Volume(b) => post matches AnySound::Volume(b2) && {
            &&& (*b2).volume_adjustment == (*b).volume_adjustment
            &&& any_batch_rel((*b).inner, (*b2).inner)
        },
        AnySound::Stop(b) => post matches AnySound::Stop(b2) && {
            &&& (*b2).stopped == (*b).stopped
            &&& any_batch_rel((*b).inner, (*b2).inner)
        },
        AnySound::Pause(b) => post matches AnySound::Pause(b2) && {
            &&& (*b2).paused == (*b).paused
            &&& any_batch_rel((*b).inner, (*b2).inner)
        },
    }
}

/// The node-level implementations of the four protocol calls.
///
/// Wrapper arms restate the wrapper behaviour over the owned member so
/// that the recursion stays within these methods; the `Sound` impl below
/// only delegates here.
impl AnySound {
    pub(crate) fn node_channel_count(&self) -> (c: u16)
        requires
            any_wf(*self),
        ensures
            any_chans_ok(*self, c),
        decreases *self,
    {
        match self {
            AnySound::Empty(e) => e.channel_count(),
            AnySound::Constant(n) => n.channel_count(),
            AnySound::Sawtooth(w) => w.channel_count(),
            AnySound::Memory(m) => m.channel_count(),
            AnySound::ErrorSound(e) => e.channel_count(),
            AnySound::List(b) => b.node_channel_count(),
            AnySound::ControlledList(b) => b.node_channel_count(),
            AnySound::Volume(b) => b.inner.node_channel_count(),
            AnySound::Stop(b) => b.inner.node_channel_count(),
            AnySound::Pause(b) => b.inner.node_channel_count(),
        }
    }

    pub(crate) fn node_sample_rate(&self) -> (r: u32)
        requires
            any_wf(*self),
        ensures
            any_rate_ok(*self, r),
        decreases *self,
    {
        match self {
            AnySound::Empty(e) => e.sample_rate(),
            AnySound::Constant(n) => n.sample_rate(),
            AnySound::Sawtooth(w) => w.sample_rate(),
            AnySound::Memory(m) => m.sample_rate(),
            AnySound::ErrorSound(e) => e.sample_rate(),
            AnySound::List(b) => b.node_sample_rate(),
            AnySound::ControlledList(b) => b.node_sample_rate(),
            AnySound::Volume(b) => b.inner.node_sample_rate(),
            AnySound::Stop(b) => b.inner.node_sample_rate(),
            AnySound::Pause(b) => b.inner.node_sample_rate(),
        }
    }

    pub(crate) fn node_next_sample(&mut self) -> (r: Result<NextSample, Error>)
        requires
            any_wf(*old(self)),
        ensures
            any_wf(*final(self)),
            any_next_rel(*old(self), *final(self), r),
        decreases *old(self),
    {
        match self {
            AnySound::Empty(e) => e.next_sample(),
            AnySound::Constant(n) => n.next_sample(),
            AnySound::Sawtooth(w) => w.next_sample(),
            AnySound::Memory(m) => m.next_sample(),
            AnySound::ErrorSound(e) => e.next_sample(),
            AnySound::List(b) => b.node_next_sample(),
            AnySound::ControlledList(b) => b.node_next_sample(),
            AnySound::Volume(b) => {
                let ri = b.inner.node_next_sample();
                let res = match ri {
                    Ok(NextSample::Sample(s)) => Ok(
                        NextSample::Sample(scale_sample(s, b.volume_adjustment)),
                    ),
                    _ => ri,
                };
                proof {
                    assert(res == volume_mapped(ri, b.volume_adjustment));
                }
                res
            },
            AnySound::Stop(b) => {
                if b.stopped {
                    Ok(NextSample::Finished)
                } else {
                    b.inner.node_next_sample()
                }
            },
            AnySound::Pause(b) => {
                if b.paused {
                    Ok(NextSample::Paused)
                } else {
                    b.inner.node_next_sample()
                }
            },
        }
    }

    pub(crate) fn node_on_start_of_batch(&mut self)
        requires
            any_wf(*old(self)),
        ensures
            any_wf(*final(self)),
            any_batch_rel(*old(self), *final(self)),
        decreases *old(self),
    {
        match self {
            AnySound::Empty(e) => e.on_start_of_batch(),
            AnySound::Constant(n) => n.on_start_of_batch(),
            AnySound::Sawtooth(w) => w.on_start_of_batch(),
            AnySound::Memory(m) => m.on_start_of_batch(),
            AnySound::ErrorSound(e) => e.on_start_of_batch(),
            AnySound::List(b) => b.node_on_start_of_batch(),
            AnySound::ControlledList(b) => b.node_on_start_of_batch(),
            AnySound::Volume(b) => b.inner.node_on_start_of_batch(),
            AnySound::Stop(b) => b.inner.node_on_start_of_batch(),
            AnySound::Pause(b) => b.inner.node_on_start_of_batch(),
        }
    }
}

impl Sound for AnySound {
    open spec fn wf(&self) -> bool {
        any_wf(*self)
    }

    open spec fn chans_ok(&self, c: u16) -> bool {
        any_chans_ok(*self, c)
    }

    open spec fn rate_ok(&self, r: u32) -> bool {
        any_rate_ok(*self, r)
    }

    open spec fn next_rel(pre: Self, post: Self, r: Result<NextSample, Error>) -> bool {
        any_next_rel(pre, post, r)
    }

    open spec fn batch_rel(pre: Self, post: Self) -> bool {
        any_batch_rel(pre, post)
    }

    fn channel_count(&self) -> (c: u16) {
        self.node_channel_count()
    }

    fn sample_rate(&self) -> (r: u32) {
        self.node_sample_rate()
    }

    fn next_sample(&mut self) -> (r: Result<NextSample, Error>) {
        self.node_next_sample()
    }

    fn on_start_of_batch(&mut self) {
        self.node_on_start_of_batch()
    }
}

} // verus!
