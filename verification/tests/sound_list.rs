use awedio::sounds::AnySound;
use awedio::sounds::ConstantValueSound;
use awedio::sounds::ErrorSound;
use awedio::sounds::MemorySound;
use awedio::sounds::SoundList;
use awedio::wrappers::Pausable;
use awedio::wrappers::SetPaused;
use awedio::NextSample;
use awedio::Sound;

#[test]
fn empty_list_reports_finished_and_fallback_format() {
    let mut list = SoundList::new();
    assert_eq!(list.len(), 0);
    assert_eq!(list.channel_count(), 2);
    assert_eq!(list.sample_rate(), 44100);
    assert_eq!(list.next_sample().unwrap(), NextSample::Finished);
}

#[test]
fn members_play_in_append_order_with_transitions() {
    let mut list = SoundList::new();
    list.add(AnySound::Memory(MemorySound::from_samples(vec![1, 2], 1, 44100)));
    list.add(AnySound::Memory(MemorySound::from_samples(vec![3], 1, 48000)));
    assert_eq!(list.len(), 2);
    // The first tick after an addition to an empty list re-reads the
    // format instead of producing audio.
    assert_eq!(list.next_sample().unwrap(), NextSample::MetadataChanged);
    assert_eq!(list.next_sample().unwrap(), NextSample::Sample(1));
    assert_eq!(list.next_sample().unwrap(), NextSample::Sample(2));
    // The first member finished: one transition tick, then the second
    // member's samples.
    assert_eq!(list.next_sample().unwrap(), NextSample::MetadataChanged);
    assert_eq!(list.sample_rate(), 48000);
    assert_eq!(list.next_sample().unwrap(), NextSample::Sample(3));
    assert_eq!(list.next_sample().unwrap(), NextSample::Finished);
    assert_eq!(list.len(), 0);
}

#[test]
fn insert_splices_a_member_in_front() {
    let mut list = SoundList::new();
    list.add(AnySound::Memory(MemorySound::from_samples(vec![9], 1, 44100)));
    list.insert(0, AnySound::Memory(MemorySound::from_samples(vec![8], 1, 44100)));
    assert_eq!(list.len(), 2);
    assert_eq!(list.next_sample().unwrap(), NextSample::MetadataChanged);
    assert_eq!(list.next_sample().unwrap(), NextSample::Sample(8));
    assert_eq!(list.next_sample().unwrap(), NextSample::MetadataChanged);
    assert_eq!(list.next_sample().unwrap(), NextSample::Sample(9));
    assert_eq!(list.next_sample().unwrap(), NextSample::Finished);
}

#[test]
fn clear_drops_all_members_without_a_sentinel() {
    let mut list = SoundList::new();
    list.add(AnySound::Constant(ConstantValueSound::new(4)));
    assert_eq!(list.next_sample().unwrap(), NextSample::MetadataChanged);
    assert_eq!(list.next_sample().unwrap(), NextSample::Sample(4));
    list.clear();
    assert_eq!(list.len(), 0);
    assert_eq!(list.next_sample().unwrap(), NextSample::Finished);
}

#[test]
fn a_failing_member_is_dropped_and_the_error_forwarded_once() {
    let mut list = SoundList::new();
    list.add(AnySound::ErrorSound(ErrorSound::new(2, 44100)));
    list.add(AnySound::Constant(ConstantValueSound::new(6)));
    assert_eq!(list.next_sample().unwrap(), NextSample::MetadataChanged);
    assert_eq!(list.next_sample(), Err(awedio::Error));
    // The failing member is gone; playback continues with the next one.
    assert_eq!(list.len(), 1);
    assert_eq!(list.next_sample().unwrap(), NextSample::Sample(6));
}

#[test]
fn paused_front_member_passes_through() {
    let mut inner = Pausable::new(AnySound::Constant(ConstantValueSound::new(9)));
    inner.set_paused(true);
    let mut list = SoundList::new();
    list.add(AnySound::Pause(Box::new(inner)));
    assert_eq!(list.next_sample().unwrap(), NextSample::MetadataChanged);
    assert_eq!(list.next_sample().unwrap(), NextSample::Paused);
    assert_eq!(list.len(), 1);
}

#[test]
fn list_reports_front_member_format() {
    let mut front = ConstantValueSound::new(0);
    front.set_channel_count(1);
    front.set_sample_rate(22050);
    let mut list = SoundList::new();
    list.add(AnySound::Constant(front));
    assert_eq!(list.channel_count(), 1);
    assert_eq!(list.sample_rate(), 22050);
}

#[test]
fn a_list_built_from_members_plays_them() {
    let members = vec![AnySound::Memory(MemorySound::from_samples(vec![5], 1, 44100))];
    // A list built over existing members starts playing at once: no
    // fresh-addition tick, since nothing was added to an empty list.
    let mut list = SoundList::from(members);
    assert_eq!(list.next_sample().unwrap(), NextSample::Sample(5));
    assert_eq!(list.next_sample().unwrap(), NextSample::Finished);
}
