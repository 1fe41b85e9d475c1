use vstd::prelude::*;

use std::sync::Arc;

use vstd::rwlock::RwLock;
use vstd::rwlock::RwLockPredicate;

use crate::sound::Error;
use crate::sound::NextSample;
use crate::sound::Sound;
use crate::sounds::any_wf;
use crate::sounds::list_batch_rel;
use crate::sounds::list_chans_ok;
use crate::sounds::list_next_rel;
use crate::sounds::list_rate_ok;
use crate::sounds::AnySound;
use crate::sounds::SoundList;
use crate::sounds::SoundMixer;
use crate::wrappers::AddSound;
use crate::wrappers::ClearSounds;

verus! {

/// One mutation queued by a controller, applied by the render half at
/// the next batch start.
pub enum ControlOp {
    Add(AnySound),
    Clear,
}

/// Well-formedness of one queued mutation.
pub open spec fn op_wf(op: ControlOp) -> bool {
    match op {
        ControlOp::Add(s) => any_wf(s),
        ControlOp::Clear => true,
    }
}

/// Well-formedness of the whole queue.
pub open spec fn ops_wf(ops: Seq<ControlOp>) -> bool {
    forall|i: int| 0 <= i < ops.len() ==> op_wf(#[trigger] ops[i])
}

/// The invariant that the shared queue's lock maintains.
pub struct OpsInv;

impl RwLockPredicate<Vec<ControlOp>> for OpsInv {
    open spec fn inv(self, v: Vec<ControlOp>) -> bool {
        ops_wf(v@)
    }
}

/// Always true; used only as a quantifier trigger for a drain step.
pub open spec fn drained_to<S>(ops: Seq<ControlOp>, mid: S) -> bool {
    true
}

/// Queued mutations applied to a collection in order: each `Add` adds a
/// member per the collection's own `add`, each `Clear` empties it.
pub open spec fn apply_ops_rel<S: Sound + AddSound + ClearSounds>(
    pre: S,
    ops: Seq<ControlOp>,
    post: S,
) -> bool
    decreases ops.len(),
{
    if ops.len() == 0 {
        post == pre
    } else {
        exists|mid: S|
            #[trigger] drained_to(ops.drop_first(), mid) && (match ops[0] {
                ControlOp::Add(s) => S::add_rel(pre, mid, s),
                ControlOp::Clear => S::clear_rel(pre, mid),
            }) && apply_ops_rel(mid, ops.drop_first(), post)
    }
}

/// Queued mutations applied to a sequencer in order, written out over
/// the sequencer's fields so that the recursive node relations can refer
/// to it: each `Add` appends (raising the empty-to-non-empty flag when
/// it applies), each `Clear` empties the list.
pub open spec fn apply_list_ops_rel(pre: SoundList, ops: Seq<ControlOp>, post: SoundList) -> bool
    decreases ops.len(),
{
    if ops.len() == 0 {
        post == pre
    } else {
        exists|mid: SoundList|
            #[trigger] drained_to(ops.drop_first(), mid) && (match ops[0] {
                ControlOp::Add(s) => {
                    &&& mid.sounds@ == pre.sounds@.push(s)
                    &&& mid.was_empty == (pre.was_empty || pre.sounds@.len() == 0)
                },
                ControlOp::Clear => {
                    &&& mid.sounds@.len() == 0
                    &&& mid.was_empty == pre.was_empty
                },
            }) && apply_list_ops_rel(mid, ops.drop_first(), post)
    }
}

/// Relies on std's `Arc::clone`: the clone refers to the same shared
/// allocation, so both handles name one value.
#[verifier::external_body]
fn arc_clone<T>(a: &Arc<T>) -> (r: Arc<T>)
    ensures
        *r == **a,
{
    Arc::clone(a)
}

/// Relies on std's `Arc::as_ref` (deref): it yields the shared value.
#[verifier::external_body]
fn arc_borrow<T>(a: &Arc<T>) -> (r: &T)
    ensures
        *r == **a,
{
    a.as_ref()
}

/// The render half of a controllable collection.
///
/// It owns the collection and implements the full sample protocol;
/// mutations queued by [`Controller`] handles become visible exactly at
/// `on_start_of_batch`, the batch boundary, so mid-batch composition
/// never changes.
pub struct Controllable<S: Sound> {
    pub collection: S,
    pub ops: Arc<RwLock<Vec<ControlOp>, OpsInv>>,
}

/// The control half of a controllable collection.
///
/// It can only queue mutations; they are applied when the render half
/// next starts a batch. Each queued sound must be well-formed, which
/// every constructor of this crate guarantees.
pub struct Controller {
    pub ops: Arc<RwLock<Vec<ControlOp>, OpsInv>>,
}

impl Controller {
    /// Queue a sound to be added to the collection at the next batch
    /// start.
    pub fn add(&mut self, sound: AnySound)
        requires
            any_wf(sound),
    {
        let lock = arc_borrow(&self.ops);
        let (mut v, handle) = lock.acquire_write();
        v.push(ControlOp::Add(sound));
        proof {
            assert forall|i: int| 0 <= i < v@.len() implies op_wf(#[trigger] v@[i]) by {
                if i < v@.len() - 1 {
                    assert(op_wf(v@[i]));
                }
            }
        }
        handle.release_write(v);
    }

    /// Queue the removal of every member, including one mid-playback,
    /// effective at the next batch start.
    pub fn clear(&mut self) {
        let lock = arc_borrow(&self.ops);
        let (mut v, handle) = lock.acquire_write();
        v.push(ControlOp::Clear);
        proof {
            assert forall|i: int| 0 <= i < v@.len() implies op_wf(#[trigger] v@[i]) by {
                if i < v@.len() - 1 {
                    assert(op_wf(v@[i]));
                }
            }
        }
        handle.release_write(v);
    }
}

/// Apply drained mutations to a collection in order.
fn apply_ops<S: Sound + AddSound + ClearSounds>(collection: &mut S, mut ops: Vec<ControlOp>)
    requires
        old(collection).wf(),
        ops_wf(ops@),
    ensures
        final(collection).wf(),
        apply_ops_rel(*old(collection), ops@, *final(collection)),
    decreases ops@.len(),
{
    let ghost all = ops@;
    if ops.len() == 0 {
        return;
    }
    let op = ops.remove(0);
    proof {
        assert(op == all[0]);
        assert(op_wf(all[0]));
        assert forall|i: int| 0 <= i < ops@.len() implies op_wf(#[trigger] ops@[i]) by {
            assert(ops@[i] == all[i + 1]);
            assert(op_wf(all[i + 1]));
        }
    }
    match op {
        ControlOp::Add(s) => collection.add(s),
        ControlOp::Clear => collection.clear(),
    }
    let ghost mid = *collection;
    apply_ops(collection, ops);
    proof {
        assert(all.drop_first() =~= ops@);
        assert(drained_to(all.drop_first(), mid));
    }
}

/// Apply drained mutations to a sequencer in order.
fn apply_list_ops(list: &mut SoundList, mut ops: Vec<ControlOp>)
    requires
        old(list).wf(),
        ops_wf(ops@),
    ensures
        final(list).wf(),
        apply_list_ops_rel(*old(list), ops@, *final(list)),
    decreases ops@.len(),
{
    let ghost all = ops@;
    if ops.len() == 0 {
        return;
    }
    let op = ops.remove(0);
    proof {
        assert(op == all[0]);
        assert(op_wf(all[0]));
        assert forall|i: int| 0 <= i < ops@.len() implies op_wf(#[trigger] ops@[i]) by {
            assert(ops@[i] == all[i + 1]);
            assert(op_wf(all[i + 1]));
        }
    }
    match op {
        ControlOp::Add(s) => list.add(s),
        ControlOp::Clear => list.clear(),
    }
    let ghost mid = *list;
    apply_list_ops(list, ops);
    proof {
        assert(all.drop_first() =~= ops@);
        assert(drained_to(all.drop_first(), mid));
    }
}

impl Controllable<SoundList> {
    pub(crate) fn node_channel_count(&self) -> (c: u16)
        requires
            self.collection.wf(),
        ensures
            list_chans_ok(self.collection, c),
        decreases *self,
    {
        self.collection.node_channel_count()
    }

    pub(crate) fn node_sample_rate(&self) -> (r: u32)
        requires
            self.collection.wf(),
        ensures
            list_rate_ok(self.collection, r),
        decreases *self,
    {
        self.collection.node_sample_rate()
    }

    pub(crate) fn node_next_sample(&mut self) -> (r: Result<NextSample, Error>)
        requires
            old(self).collection.wf(),
        ensures
            final(self).collection.wf(),
            final(self).ops == old(self).ops,
            list_next_rel(old(self).collection, final(self).collection, r),
        decreases *old(self),
    {
        self.collection.node_next_sample()
    }

    /// The batch notification is forwarded to the members first; the
    /// queued mutations are drained afterwards, so additions become
    /// visible for the coming batch and receive their first
    /// notification at the next boundary.
    pub(crate) fn node_on_start_of_batch(&mut self)
        requires
            old(self).collection.wf(),
        ensures
            final(self).collection.wf(),
            final(self).ops == old(self).ops,
            exists|ops: Seq<ControlOp>, mid: SoundList|
                #[trigger] drained_to(ops, mid) && ops_wf(ops) && list_batch_rel(
                    old(self).collection,
                    mid,
                ) && apply_list_ops_rel(mid, ops, final(self).collection),
        decreases *old(self),
    {
        self.collection.node_on_start_of_batch();
        let ghost mid = self.collection;
        let lock = arc_borrow(&self.ops);
        let (v, handle) = lock.acquire_write();
        handle.release_write(Vec::new());
        let ghost drained = v@;
        apply_list_ops(&mut self.collection, v);
        proof {
            assert(drained_to(drained, mid));
        }
    }
}

impl SoundList {
    /// Split this sequencer into a render half, which plays it, and a
    /// control half, which can add to or clear it from outside the
    /// render path.
    pub fn controllable(self) -> (r: (Controllable<SoundList>, Controller))
        ensures
            r.0.collection == self,
            r.1.ops == r.0.ops,
    {
        let lock = RwLock::<Vec<ControlOp>, OpsInv>::new(Vec::new(), Ghost(OpsInv));
        let ops = Arc::new(lock);
        let ops2 = arc_clone(&ops);
        (Controllable { collection: self, ops }, Controller { ops: ops2 })
    }
}

impl SoundMixer {
    /// Split this mixer into a render half, which plays it, and a
    /// control half, which can add to or clear it from outside the
    /// render path.
    pub fn controllable(self) -> (r: (Controllable<SoundMixer>, Controller))
        ensures
            r.0.collection == self,
            r.1.ops == r.0.ops,
    {
        let lock = RwLock::<Vec<ControlOp>, OpsInv>::new(Vec::new(), Ghost(OpsInv));
        let ops = Arc::new(lock);
        let ops2 = arc_clone(&ops);
        (Controllable { collection: self, ops }, Controller { ops: ops2 })
    }
}

impl<S: Sound + AddSound + ClearSounds> Sound for Controllable<S> {
    open spec fn wf(&self) -> bool {
        self.collection.wf()
    }

    open spec fn chans_ok(&self, c: u16) -> bool {
        self.collection.chans_ok(c)
    }

    open spec fn rate_ok(&self, r: u32) -> bool {
        self.collection.rate_ok(r)
    }

    open spec fn next_rel(pre: Self, post: Self, r: Result<NextSample, Error>) -> bool {
        post.ops == pre.ops && S::next_rel(pre.collection, post.collection, r)
    }

    /// The batch notification is forwarded to the collection first, then
    /// the mutations queued by the controllers — some well-formed
    /// sequence of them, unknowable from the render side — are applied
    /// in order.
    open spec fn batch_rel(pre: Self, post: Self) -> bool {
        post.ops == pre.ops && exists|ops: Seq<ControlOp>, mid: S|
            #[trigger] drained_to(ops, mid) && ops_wf(ops) && S::batch_rel(pre.collection, mid)
                && apply_ops_rel(mid, ops, post.collection)
    }

    fn channel_count(&self) -> (c: u16) {
        self.collection.channel_count()
    }

    fn sample_rate(&self) -> (r: u32) {
        self.collection.sample_rate()
    }

    fn next_sample(&mut self) -> (r: Result<NextSample, Error>) {
        self.collection.next_sample()
    }

    /// The batch notification is forwarded first, then the queued
    /// mutations are drained, so additions become visible for the
    /// coming batch and receive their first notification at the next
    /// boundary.
    fn on_start_of_batch(&mut self) {
        self.collection.on_start_of_batch();
        let ghost mid = self.collection;
        let lock = arc_borrow(&self.ops);
        let (v, handle) = lock.acquire_write();
        handle.release_write(Vec::new());
        let ghost drained = v@;
        apply_ops(&mut self.collection, v);
        proof {
            assert(drained_to(drained, mid));
        }
    }
}

} // verus!
