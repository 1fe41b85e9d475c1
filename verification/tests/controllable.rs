use awedio::sounds::AnySound;
use awedio::sounds::ConstantValueSound;
use awedio::sounds::SoundList;
use awedio::NextSample;
use awedio::Sound;

#[test]
fn controller_mutations_become_visible_at_the_batch_boundary() {
    let (mut sound, mut controller) = SoundList::new().controllable();
    assert_eq!(sound.next_sample().unwrap(), NextSample::Finished);
    controller.add(AnySound::Constant(ConstantValueSound::new(11)));
    // Not drained yet: the render half still sees an empty list.
    assert_eq!(sound.next_sample().unwrap(), NextSample::Finished);
    sound.on_start_of_batch();
    assert_eq!(sound.next_sample().unwrap(), NextSample::MetadataChanged);
    assert_eq!(sound.next_sample().unwrap(), NextSample::Sample(11));
}

#[test]
fn controller_clear_stops_playback_at_the_next_batch() {
    let (mut sound, mut controller) = SoundList::new().controllable();
    controller.add(AnySound::Constant(ConstantValueSound::new(3)));
    sound.on_start_of_batch();
    assert_eq!(sound.next_sample().unwrap(), NextSample::MetadataChanged);
    assert_eq!(sound.next_sample().unwrap(), NextSample::Sample(3));
    controller.clear();
    // Still audible until the boundary.
    assert_eq!(sound.next_sample().unwrap(), NextSample::Sample(3));
    sound.on_start_of_batch();
    assert_eq!(sound.next_sample().unwrap(), NextSample::Finished);
}

#[test]
fn a_controllable_mixer_accepts_members_from_outside() {
    let mixer = awedio::sounds::SoundMixer::new(2, 44100);
    let (mut sound, mut controller) = mixer.controllable();
    assert_eq!(sound.next_sample().unwrap(), NextSample::Finished);
    controller.add(AnySound::Constant(ConstantValueSound::new(21)));
    sound.on_start_of_batch();
    assert_eq!(sound.next_sample().unwrap(), NextSample::MetadataChanged);
    assert_eq!(sound.next_sample().unwrap(), NextSample::Sample(21));
}
