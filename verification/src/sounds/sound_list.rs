use vstd::prelude::*;

use crate::sound::Error;
use crate::sound::NextSample;
use crate::sound::Sound;
use crate::sounds::all_wf;
use crate::sounds::any_batch_rel;
use crate::sounds::any_sound::lemma_list_step_drop;
use crate::sounds::any_sound::lemma_list_step_passthrough;
use crate::sounds::any_next_rel;
use crate::sounds::any_wf;
use crate::sounds::list_batch_rel;
use crate::sounds::list_chans_ok;
use crate::sounds::list_next_rel;
use crate::sounds::list_rate_ok;
use crate::sounds::poll_witness;
use crate::sounds::AnySound;
use crate::sounds::DEFAULT_CHANNEL_COUNT;
use crate::sounds::DEFAULT_SAMPLE_RATE;
use vstd::std_specs::convert::FromSpecImpl;

use crate::wrappers::AddSound;
use crate::wrappers::ClearSounds;

verus! {

/// A sequencer plays its members strictly in append order.
///
/// One `next_sample` step either touches no member (the empty and
/// fresh-addition ticks), or polls exactly the front member: every
/// member behind the front is left in place, in order. When the front
/// member ends or fails it leaves the list at once — only the members
/// behind it remain, shifted forward in order — so a member that
/// reported `Finished` or an error is never polled again. Together with
/// `add` appending at the back, members play in the order they were
/// added.
pub proof fn lemma_sequencer_plays_in_order(
    pre: SoundList,
    post: SoundList,
    r: Result<NextSample, Error>,
)
    requires
        list_next_rel(pre, post, r),
    ensures
        ({
            ||| post.sounds@ == pre.sounds@
            ||| post.sounds@ == pre.sounds@.remove(0)
            ||| (post.sounds@.len() == pre.sounds@.len() && forall|i: int|
                1 <= i < pre.sounds@.len() ==> post.sounds@[i] == pre.sounds@[i])
        }),
        r matches Err(_) ==> post.sounds@ == pre.sounds@.remove(0),
{
    if pre.sounds@.len() == 0 {
    } else if pre.was_empty {
    } else {
        if exists|f2: AnySound|
            #[trigger] poll_witness(pre.sounds@[0], f2, r) && any_next_rel(pre.sounds@[0], f2, r)
                && post.sounds@ == pre.sounds@.update(0, f2) {
            let f2 = choose|f2: AnySound|
                #[trigger] poll_witness(pre.sounds@[0], f2, r) && any_next_rel(
                    pre.sounds@[0],
                    f2,
                    r,
                ) && post.sounds@ == pre.sounds@.update(0, f2);
            assert(forall|i: int|
                1 <= i < pre.sounds@.len() ==> post.sounds@[i] == pre.sounds@[i]);
        }
    }
}

/// A member with a statically known number of samples left: a finite
/// in-memory source, or the immediately finished source.
pub open spec fn finite_leaf(s: AnySound) -> bool {
    s matches AnySound::Memory(_) || s matches AnySound::Empty(_)
}

/// How many samples such a member has left to play.
pub open spec fn leaf_remaining(s: AnySound) -> int {
    match s {
        AnySound::Memory(m) => m.samples@.len() - m.position,
        _ => 0,
    }
}

/// Every member is a finite leaf.
pub open spec fn all_finite_leaves(sounds: Seq<AnySound>) -> bool {
    forall|i: int| 0 <= i < sounds.len() ==> finite_leaf(#[trigger] sounds[i])
}

/// The total number of samples the sequencer still has to play.
pub open spec fn total_remaining(sounds: Seq<AnySound>) -> int
    decreases sounds.len(),
{
    if sounds.len() == 0 {
        0
    } else {
        leaf_remaining(sounds[0]) + total_remaining(sounds.drop_first())
    }
}

/// A sequencer of finite members accounts for every sample exactly once:
/// each tick either plays one sample (the total left decreases by one),
/// or reports `MetadataChanged` carrying no audio (the total is
/// unchanged), or reports `Finished`, which happens only when no sample
/// is left. So it reports `Finished` after exactly the sum of its
/// members' sample counts, with the member-to-member `MetadataChanged`
/// ticks in between; this sequencer always reports one such tick per
/// transition, whether or not the formats differ.
pub proof fn lemma_sequencer_sample_budget(
    pre: SoundList,
    post: SoundList,
    r: Result<NextSample, Error>,
)
    requires
        list_next_rel(pre, post, r),
        all_wf(pre.sounds@),
        all_finite_leaves(pre.sounds@),
    ensures
        all_finite_leaves(post.sounds@),
        match r {
            Ok(NextSample::Sample(_)) => total_remaining(post.sounds@) == total_remaining(
                pre.sounds@,
            ) - 1,
            Ok(NextSample::MetadataChanged) => total_remaining(post.sounds@) == total_remaining(
                pre.sounds@,
            ),
            Ok(NextSample::Finished) => total_remaining(pre.sounds@) == 0 && total_remaining(
                post.sounds@,
            ) == 0,
            Ok(NextSample::Paused) => false,
            Err(_) => false,
        },
{
    if pre.sounds@.len() == 0 {
        assert(total_remaining(pre.sounds@) == 0);
    } else if pre.was_empty {
    } else {
        let front = pre.sounds@[0];
        assert(finite_leaf(front));
        assert(any_wf(front));
        assert(leaf_remaining(front) >= 0);
        if exists|f2: AnySound|
            #[trigger] poll_witness(front, f2, Ok::<NextSample, Error>(NextSample::Finished))
                && any_next_rel(front, f2, Ok::<NextSample, Error>(NextSample::Finished)) {
            let f2 = choose|f2: AnySound|
                #[trigger] poll_witness(front, f2, Ok::<NextSample, Error>(NextSample::Finished))
                    && any_next_rel(front, f2, Ok::<NextSample, Error>(NextSample::Finished));
            assert(leaf_remaining(front) == 0);
        }
        if exists|f2: AnySound|
            #[trigger] poll_witness(front, f2, r) && any_next_rel(front, f2, r) && post.sounds@
                == pre.sounds@.update(0, f2) {
            let f2 = choose|f2: AnySound|
                #[trigger] poll_witness(front, f2, r) && any_next_rel(front, f2, r)
                    && post.sounds@ == pre.sounds@.update(0, f2);
            if r matches Ok(v) && v != NextSample::Finished && !(r matches Err(_)) {
                assert(finite_leaf(f2) && leaf_remaining(f2) == leaf_remaining(front) - 1 && (
                r matches Ok(v2) && v2 matches NextSample::Sample(_)));
                assert(post.sounds@.drop_first() =~= pre.sounds@.drop_first());
                assert(total_remaining(post.sounds@) == leaf_remaining(f2) + total_remaining(
                    pre.sounds@.drop_first(),
                ));
                assert forall|i: int| 0 <= i < post.sounds@.len() implies finite_leaf(
                    #[trigger] post.sounds@[i],
                ) by {
                    if i > 0 {
                        assert(post.sounds@[i] == pre.sounds@[i]);
                        assert(finite_leaf(pre.sounds@[i]));
                    }
                }
            }
        }
        if exists|f2: AnySound| #[trigger] poll_witness(front, f2, r) && any_next_rel(front, f2, r)
            && (r matches Err(_)) {
            let f2 = choose|f2: AnySound|
                #[trigger] poll_witness(front, f2, r) && any_next_rel(front, f2, r) && (r matches
                Err(_));
            assert(false);
        }
        if post.sounds@ == pre.sounds@.remove(0) {
            assert(post.sounds@ =~= pre.sounds@.drop_first());
            assert(total_remaining(pre.sounds@) == leaf_remaining(front) + total_remaining(
                post.sounds@,
            ));
            assert forall|i: int| 0 <= i < post.sounds@.len() implies finite_leaf(
                #[trigger] post.sounds@[i],
            ) by {
                assert(post.sounds@[i] == pre.sounds@[i + 1]);
                assert(finite_leaf(pre.sounds@[i + 1]));
            }
            assert forall|i: int| 0 <= i < post.sounds@.len() implies leaf_remaining(
                #[trigger] post.sounds@[i],
            ) >= 0 by {
                assert(post.sounds@[i] == pre.sounds@[i + 1]);
                assert(any_wf(pre.sounds@[i + 1]));
            }
            lemma_total_nonneg(post.sounds@);
        }
    }
}

proof fn lemma_total_nonneg(sounds: Seq<AnySound>)
    requires
        forall|i: int| 0 <= i < sounds.len() ==> leaf_remaining(#[trigger] sounds[i]) >= 0,
    ensures
        total_remaining(sounds) >= 0,
    decreases sounds.len(),
{
    if sounds.len() > 0 {
        assert(leaf_remaining(sounds[0]) >= 0);
        assert forall|i: int| 0 <= i < sounds.drop_first().len() implies leaf_remaining(
            #[trigger] sounds.drop_first()[i],
        ) >= 0 by {
            assert(sounds.drop_first()[i] == sounds[i + 1]);
        }
        lemma_total_nonneg(sounds.drop_first());
    }
}

/// Play Sounds sequentially one after the other.
///
/// Only after a Sound has returned `NextSample::Finished` will the next
/// Sound start playing.
///
/// If an Error is returned from a Sound it is dropped and the error is
/// propagated to the caller. Calling `next_sample` again continues with
/// the next Sound in the list.
pub struct SoundList {
    pub sounds: Vec<AnySound>,
    pub was_empty: bool,
}

impl SoundList {
    /// Create a new empty SoundList.
    pub fn new() -> (r: Self)
        ensures
            r.sounds@.len() == 0,
            !r.was_empty,
            r.wf(),
    {
        SoundList { sounds: Vec::new(), was_empty: false }
    }

    /// Add a Sound to be played after any existing sounds have
    /// `Finished`.
    pub fn add(&mut self, sound: AnySound)
        requires
            old(self).wf(),
            any_wf(sound),
        ensures
            final(self).wf(),
            final(self).sounds@ == old(self).sounds@.push(sound),
            final(self).was_empty == (old(self).was_empty || old(self).sounds@.len() == 0),
    {
        if self.sounds.len() == 0 {
            self.was_empty = true;
        }
        self.sounds.push(sound);
        proof {
            assert forall|i: int| 0 <= i < self.sounds@.len() implies any_wf(
                #[trigger] self.sounds@[i],
            ) by {
                if i < old(self).sounds@.len() {
                    assert(any_wf(old(self).sounds@[i]));
                }
            }
        }
    }

    /// Inserts a sound at position `index`, shifting all elements after
    /// it to the right.
    ///
    /// `index` must be at most the current length.
    pub fn insert(&mut self, index: usize, sound: AnySound)
        requires
            old(self).wf(),
            any_wf(sound),
            index <= old(self).sounds@.len(),
        ensures
            final(self).wf(),
            final(self).sounds@ == old(self).sounds@.insert(index as int, sound),
            final(self).was_empty == (old(self).was_empty || old(self).sounds@.len() == 0),
    {
        if self.sounds.len() == 0 {
            self.was_empty = true;
        }
        self.sounds.insert(index, sound);
        proof {
            assert forall|i: int| 0 <= i < self.sounds@.len() implies any_wf(
                #[trigger] self.sounds@[i],
            ) by {
                let pre = old(self).sounds@;
                if i < index {
                    assert(self.sounds@[i] == pre[i]);
                    assert(any_wf(pre[i]));
                } else if i > index {
                    assert(self.sounds@[i] == pre[i - 1]);
                    assert(any_wf(pre[i - 1]));
                }
            }
        }
    }

    /// Stop all sounds including the currently playing one.
    ///
    /// No sentinel event is emitted: the next `next_sample` call simply
    /// observes an empty list.
    pub fn clear(&mut self)
        requires
            old(self).wf(),
        ensures
            final(self).wf(),
            final(self).sounds@.len() == 0,
            final(self).was_empty == old(self).was_empty,
    {
        self.sounds.clear();
    }

    /// Returns the number of sounds currently in the list.
    pub fn len(&self) -> (r: usize)
        ensures
            r == self.sounds@.len(),
    {
        self.sounds.len()
    }

    pub(crate) fn node_channel_count(&self) -> (c: u16)
        requires
            self.wf(),
        ensures
            list_chans_ok(*self, c),
        decreases *self,
    {
        if self.sounds.len() == 0 {
            DEFAULT_CHANNEL_COUNT
        } else {
            self.sounds[0].node_channel_count()
        }
    }

    pub(crate) fn node_sample_rate(&self) -> (r: u32)
        requires
            self.wf(),
        ensures
            list_rate_ok(*self, r),
        decreases *self,
    {
        if self.sounds.len() == 0 {
            DEFAULT_SAMPLE_RATE
        } else {
            self.sounds[0].node_sample_rate()
        }
    }

    pub(crate) fn node_next_sample(&mut self) -> (r: Result<NextSample, Error>)
        requires
            old(self).wf(),
        ensures
            final(self).wf(),
            list_next_rel(*old(self), *final(self), r),
        decreases *old(self),
    {
        if self.sounds.len() == 0 {
            return Ok(NextSample::Finished);
        }
        if self.was_empty {
            self.was_empty = false;
            return Ok(NextSample::MetadataChanged);
        }
        let ghost pre = *old(self);
        let mut front = self.sounds.remove(0);
        proof {
            assert(any_wf(pre.sounds@[0]));
            assert forall|i: int| 0 <= i < self.sounds@.len() implies any_wf(
                #[trigger] self.sounds@[i],
            ) by {
                assert(self.sounds@[i] == pre.sounds@[i + 1]);
                assert(any_wf(pre.sounds@[i + 1]));
            }
        }
        let rf = front.node_next_sample();
        match rf {
            Err(e) => {
                proof {
                    assert(any_next_rel(pre.sounds@[0], front, Err::<NextSample, Error>(e)));
                    lemma_list_step_drop(
                        pre,
                        *self,
                        front,
                        Err::<NextSample, Error>(e),
                        Err::<NextSample, Error>(e),
                    );
                }
                Err(e)
            },
            Ok(NextSample::Finished) => {
                proof {
                    assert(any_next_rel(
                        pre.sounds@[0],
                        front,
                        Ok::<NextSample, Error>(NextSample::Finished),
                    ));
                }
                if self.sounds.len() == 0 {
                    proof {
                        lemma_list_step_drop(
                            pre,
                            *self,
                            front,
                            Ok::<NextSample, Error>(NextSample::Finished),
                            Ok::<NextSample, Error>(NextSample::Finished),
                        );
                    }
                    Ok(NextSample::Finished)
                } else {
                    proof {
                        lemma_list_step_drop(
                            pre,
                            *self,
                            front,
                            Ok::<NextSample, Error>(NextSample::Finished),
                            Ok::<NextSample, Error>(NextSample::MetadataChanged),
                        );
                    }
                    Ok(NextSample::MetadataChanged)
                }
            },
            Ok(x) => {
                self.sounds.insert(0, front);
                proof {
                    assert(self.sounds@ =~= pre.sounds@.update(0, front));
                    lemma_list_step_passthrough(pre, *self, front, rf);
                    assert forall|i: int| 0 <= i < self.sounds@.len() implies any_wf(
                        #[trigger] self.sounds@[i],
                    ) by {
                        if i == 0 {
                            assert(any_wf(front));
                        } else {
                            assert(any_wf(pre.sounds@[i]));
                        }
                    }
                }
                Ok(x)
            },
        }
    }

    #[verifier::loop_isolation(false)]
    pub(crate) fn node_on_start_of_batch(&mut self)
        requires
            old(self).wf(),
        ensures
            final(self).wf(),
            list_batch_rel(*old(self), *final(self)),
        decreases *old(self),
    {
        let ghost pre = *old(self);
        let n = self.sounds.len();
        let mut j: usize = 0;
        while j < n
            invariant
                0 <= j <= n,
                n == pre.sounds@.len(),
                self.was_empty == pre.was_empty,
                self.sounds@.len() == n,
                all_wf(self.sounds@),
                forall|i: int|
                    0 <= i < n - j ==> #[trigger] self.sounds@[i] == pre.sounds@[i + j],
                forall|i: int|
                    0 <= i < j ==> any_batch_rel(
                        #[trigger] pre.sounds@[i],
                        self.sounds@[n - j + i],
                    ),
            decreases n - j,
        {
            let ghost loop_pre = self.sounds@;
            let mut s = self.sounds.remove(0);
            proof {
                assert(loop_pre[0] == pre.sounds@[j as int]);
                assert(any_wf(loop_pre[0]));
                assert(decreases_to!(pre => pre.sounds));
                assert(decreases_to!(pre.sounds => pre.sounds@));
                assert(decreases_to!(pre.sounds@ => pre.sounds@[j as int]));
                assert(decreases_to!(pre => s));
            }
            s.node_on_start_of_batch();
            self.sounds.push(s);
            proof {
                assert forall|i: int| 0 <= i < self.sounds@.len() implies any_wf(
                    #[trigger] self.sounds@[i],
                ) by {
                    if i < self.sounds@.len() - 1 {
                        assert(self.sounds@[i] == loop_pre[i + 1]);
                        assert(any_wf(loop_pre[i + 1]));
                    } else {
                        assert(self.sounds@[i] == s);
                    }
                }
            }
            j = j + 1;
        }
        proof {
            assert forall|i: int| 0 <= i < pre.sounds@.len() implies any_batch_rel(
                #[trigger] pre.sounds@[i],
                self.sounds@[i],
            ) by {
                assert(any_batch_rel(pre.sounds@[i], self.sounds@[n - n + i]));
            }
        }
    }
}

impl Sound for SoundList {
    open spec fn wf(&self) -> bool {
        all_wf(self.sounds@)
    }

    open spec fn chans_ok(&self, c: u16) -> bool {
        list_chans_ok(*self, c)
    }

    open spec fn rate_ok(&self, r: u32) -> bool {
        list_rate_ok(*self, r)
    }

    open spec fn next_rel(pre: Self, post: Self, r: Result<NextSample, Error>) -> bool {
        list_next_rel(pre, post, r)
    }

    open spec fn batch_rel(pre: Self, post: Self) -> bool {
        list_batch_rel(pre, post)
    }

    fn channel_count(&self) -> (c: u16) {
        self.node_channel_count()
    }

    fn sample_rate(&self) -> (r: u32) {
        self.node_sample_rate()
    }

    fn next_sample(&mut self) -> (r: Result<NextSample, Error>) {
        self.node_next_sample()
    }

    fn on_start_of_batch(&mut self) {
        self.node_on_start_of_batch()
    }
}

impl AddSound for SoundList {
    open spec fn add_rel(pre: Self, post: Self, sound: AnySound) -> bool {
        &&& post.sounds@ == pre.sounds@.push(sound)
        &&& post.was_empty == (pre.was_empty || pre.sounds@.len() == 0)
    }

    fn add(&mut self, sound: AnySound) {
        self.add(sound);
    }
}

impl ClearSounds for SoundList {
    open spec fn clear_rel(pre: Self, post: Self) -> bool {
        post.sounds@.len() == 0 && post.was_empty == pre.was_empty
    }

    fn clear(&mut self) {
        self.clear();
    }
}

impl From<Vec<AnySound>> for SoundList {
    /// A list over `sounds`, behaving as if each had just been added.
    fn from(sounds: Vec<AnySound>) -> (r: Self)
        ensures
            r.sounds == sounds,
            r.was_empty == (sounds@.len() == 0),
    {
        let was_empty = sounds.len() == 0;
        SoundList { sounds, was_empty }
    }
}

impl FromSpecImpl<Vec<AnySound>> for SoundList {
    open spec fn obeys_from_spec() -> bool {
        true
    }

    open spec fn from_spec(sounds: Vec<AnySound>) -> Self {
        SoundList { sounds, was_empty: sounds@.len() == 0 }
    }
}

impl From<SoundList> for Vec<AnySound> {
    /// The members of `list`, in order.
    fn from(list: SoundList) -> (r: Self)
        ensures
            r == list.sounds,
    {
        list.sounds
    }
}

impl FromSpecImpl<SoundList> for Vec<AnySound> {
    open spec fn obeys_from_spec() -> bool {
        true
    }

    open spec fn from_spec(list: SoundList) -> Self {
        list.sounds
    }
}

impl Default for SoundList {
    /// An empty SoundList.
    fn default() -> (r: Self)
        ensures
            r.sounds@.len() == 0,
            !r.was_empty,
            r.wf(),
    {
        Self::new()
    }
}

} // verus!
