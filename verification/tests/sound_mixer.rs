use awedio::sounds::AnySound;
use awedio::sounds::ConstantValueSound;
use awedio::sounds::SoundList;
use awedio::sounds::SoundMixer;
use awedio::sounds::DEFAULT_CHANNEL_COUNT;
use awedio::sounds::DEFAULT_SAMPLE_RATE;
use awedio::NextSample;
use awedio::Sound;

#[test]
fn additional_silent_sounds_do_not_affect_first() {
    let first = ConstantValueSound::new(5);
    let second = ConstantValueSound::new(0);
    let mut mixer = SoundMixer::new(DEFAULT_CHANNEL_COUNT, DEFAULT_SAMPLE_RATE);
    mixer.add(AnySound::Constant(first));
    mixer.add(AnySound::Constant(second));
    assert_eq!(mixer.next_sample().unwrap(), NextSample::Sample(5));
    assert_eq!(mixer.next_sample().unwrap(), NextSample::Sample(5));
    assert_eq!(mixer.next_sample().unwrap(), NextSample::Sample(5));
    let third = ConstantValueSound::new(0);
    mixer.add(AnySound::Constant(third));
    assert_eq!(mixer.next_sample().unwrap(), NextSample::Sample(5));
    assert_eq!(mixer.next_sample().unwrap(), NextSample::Sample(5));
    assert_eq!(mixer.next_sample().unwrap(), NextSample::Sample(5));
}

#[test]
fn two_sounds_add_together() {
    let first = ConstantValueSound::new(5);
    let second = ConstantValueSound::new(7);
    let mut mixer = SoundMixer::new(DEFAULT_CHANNEL_COUNT, DEFAULT_SAMPLE_RATE);
    mixer.add(AnySound::Constant(first));
    mixer.add(AnySound::Constant(second));
    assert_eq!(mixer.next_sample().unwrap(), NextSample::Sample(12));
    assert_eq!(mixer.next_sample().unwrap(), NextSample::Sample(12));
    assert_eq!(mixer.next_sample().unwrap(), NextSample::Sample(12));
}

#[test]
fn empty_sound_list_not_same_sample_rate() {
    // A SoundMixer that matches its members' audio format must keep
    // working when the audio goes through a SoundList with a different
    // fallback sample rate.
    let mut mixer = SoundMixer::new(2, 40000);
    let (sound, mut controller) = SoundList::new().controllable();
    mixer.add(AnySound::ControlledList(Box::new(sound)));
    mixer.on_start_of_batch();
    assert_eq!(NextSample::Finished, mixer.next_sample().unwrap());
    let mut sound = ConstantValueSound::new(5);

    sound.set_channel_count(2);
    sound.set_sample_rate(40000);
    controller.add(AnySound::Constant(sound));

    assert_eq!(NextSample::Finished, mixer.next_sample().unwrap());

    mixer.on_start_of_batch();
    assert_eq!(mixer.next_sample().unwrap(), NextSample::Sample(5));
}

#[test]
fn mixer_saturates_at_the_16_bit_bounds() {
    let mut mixer = SoundMixer::new(DEFAULT_CHANNEL_COUNT, DEFAULT_SAMPLE_RATE);
    mixer.add(AnySound::Constant(ConstantValueSound::new(20000)));
    mixer.add(AnySound::Constant(ConstantValueSound::new(20000)));
    assert_eq!(mixer.next_sample().unwrap(), NextSample::Sample(i16::MAX));
    let mut low = SoundMixer::new(DEFAULT_CHANNEL_COUNT, DEFAULT_SAMPLE_RATE);
    low.add(AnySound::Constant(ConstantValueSound::new(-20000)));
    low.add(AnySound::Constant(ConstantValueSound::new(-20000)));
    assert_eq!(low.next_sample().unwrap(), NextSample::Sample(i16::MIN));
}

#[test]
fn mixer_recovers_after_finishing() {
    let mut mixer = SoundMixer::new(DEFAULT_CHANNEL_COUNT, DEFAULT_SAMPLE_RATE);
    assert_eq!(mixer.next_sample().unwrap(), NextSample::Finished);
    mixer.add(AnySound::Constant(ConstantValueSound::new(9)));
    mixer.on_start_of_batch();
    assert_eq!(mixer.next_sample().unwrap(), NextSample::MetadataChanged);
    assert_eq!(mixer.next_sample().unwrap(), NextSample::Sample(9));
}

#[test]
fn mixer_absorbs_matching_format_reports() {
    let mut sound = ConstantValueSound::new(42);
    // The format does not actually change, but the source still reports
    // a metadata change before its next sample.
    sound.set_sample_rate(DEFAULT_SAMPLE_RATE);
    let mut mixer = SoundMixer::new(DEFAULT_CHANNEL_COUNT, DEFAULT_SAMPLE_RATE);
    mixer.add(AnySound::Constant(sound));
    assert_eq!(mixer.next_sample().unwrap(), NextSample::Sample(42));
}

#[test]
fn mixer_drops_members_with_other_formats() {
    let mut sound = ConstantValueSound::new(42);
    sound.set_sample_rate(48000);
    let mut mixer = SoundMixer::new(DEFAULT_CHANNEL_COUNT, DEFAULT_SAMPLE_RATE);
    mixer.add(AnySound::Constant(sound));
    assert_eq!(mixer.len(), 1);
    // The member reports a change to a format the mixer cannot mix and
    // is dropped; no member is left to produce audio.
    assert_eq!(mixer.next_sample().unwrap(), NextSample::Finished);
    assert_eq!(mixer.len(), 0);
}

#[test]
fn mixer_forwards_a_member_error_once() {
    let mut mixer = SoundMixer::new(DEFAULT_CHANNEL_COUNT, DEFAULT_SAMPLE_RATE);
    mixer.add(AnySound::Constant(ConstantValueSound::new(3)));
    mixer.add(AnySound::ErrorSound(awedio::sounds::ErrorSound::new(
        DEFAULT_CHANNEL_COUNT,
        DEFAULT_SAMPLE_RATE,
    )));
    assert_eq!(mixer.next_sample(), Err(awedio::Error));
    // The failing member was dropped; mixing continues.
    assert_eq!(mixer.next_sample().unwrap(), NextSample::Sample(3));
}
