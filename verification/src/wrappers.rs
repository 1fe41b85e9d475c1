//! Wrappers to add functionality to Sounds.
//!
//! Each wrapper owns exactly one inner sound, adds one orthogonal
//! capability, and passes every other call through unchanged. Wrappers
//! compose by nesting; a wrapper forwards capability calls it does not
//! itself implement to its inner sound when that sound also has the
//! capability.

use vstd::prelude::*;

use crate::sound::Sound;
use crate::sounds::AnySound;

mod adjustable_volume;
mod controllable;
mod pausable;
mod stoppable;

pub(crate) use adjustable_volume::scale_sample;
pub use adjustable_volume::scaled_sample;
pub use adjustable_volume::volume_mapped;
pub use adjustable_volume::AdjustableVolume;
pub use adjustable_volume::SetVolume;
pub use adjustable_volume::VOLUME_UNIT;
pub use controllable::apply_list_ops_rel;
pub use controllable::apply_ops_rel;
pub use controllable::drained_to;
pub use controllable::op_wf;
pub use controllable::ops_wf;
pub use controllable::ControlOp;
pub use controllable::Controllable;
pub use controllable::Controller;
pub use controllable::OpsInv;
pub use pausable::Pausable;
pub use pausable::SetPaused;
pub use stoppable::SetStopped;
pub use stoppable::Stoppable;

verus! {

/// A collection of sounds that more can be added to.
pub trait AddSound: Sound {
    /// What `add` does to the collection.
    spec fn add_rel(pre: Self, post: Self, sound: AnySound) -> bool;

    /// Add `sound` to the collection.
    fn add(&mut self, sound: AnySound)
        requires
            old(self).wf(),
            sound.wf(),
        ensures
            final(self).wf(),
            Self::add_rel(*old(self), *final(self), sound),
    ;
}

/// A collection of sounds that can be emptied.
pub trait ClearSounds: Sound {
    /// What `clear` does to the collection.
    spec fn clear_rel(pre: Self, post: Self) -> bool;

    /// Drop every member immediately, including one mid-playback.
    fn clear(&mut self)
        requires
            old(self).wf(),
        ensures
            final(self).wf(),
            Self::clear_rel(*old(self), *final(self)),
    ;
}

} // verus!
