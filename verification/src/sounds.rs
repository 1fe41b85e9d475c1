//! Sounds to play: leaf generators and the composite sources built from
//! them.

use vstd::prelude::*;

pub(crate) mod any_sound;
mod constant;
mod empty;
mod error_sound;
mod memory;
mod sawtooth;
pub(crate) mod sound_list;
pub(crate) mod sound_mixer;

pub use any_sound::any_batch_rel;
pub use any_sound::any_chans_ok;
pub use any_sound::any_next_rel;
pub use any_sound::any_rate_ok;
pub use any_sound::any_wf;
pub use any_sound::AnySound;
pub use any_sound::all_wf;
pub use any_sound::list_batch_rel;
pub use any_sound::list_chans_ok;
pub use any_sound::list_next_rel;
pub use any_sound::list_rate_ok;
pub use any_sound::poll_witness;
pub use sound_list::SoundList;
pub use sound_mixer::member_meta_chain;
pub use sound_mixer::member_poll_rel;
pub use sound_mixer::member_witness;
pub use sound_mixer::mix_poll_rel;
pub use sound_mixer::mix_witness;
pub use sound_mixer::mixer_batch_rel;
pub use sound_mixer::mixer_next_rel;
pub use sound_mixer::MemberPoll;
pub use sound_mixer::SoundMixer;
pub use sound_mixer::MAX_METADATA_REPORTS_PER_TICK;
pub use constant::ConstantValueSound;
pub use empty::Empty;
pub use error_sound::ErrorSound;
pub use memory::MemorySound;
pub use sawtooth::Sawtooth;

verus! {

/// The channel count reported when no member exists to delegate to.
pub const DEFAULT_CHANNEL_COUNT: u16 = 2;

/// The sample rate reported when no member exists to delegate to.
pub const DEFAULT_SAMPLE_RATE: u32 = 44100;

} // verus!
