use awedio::sounds::ConstantValueSound;
use awedio::wrappers::AdjustableVolume;
use awedio::wrappers::SetPaused;
use awedio::wrappers::SetVolume;
use awedio::wrappers::VOLUME_UNIT;
use awedio::NextSample;
use awedio::Sound;

#[test]
fn half_volume_halves_the_sample_values() {
    let mut sound = ConstantValueSound::new(1000).with_adjustable_volume();
    assert_eq!(sound.volume(), VOLUME_UNIT);
    assert_eq!(sound.next_sample().unwrap(), NextSample::Sample(1000));
    // A multiplier of 128/256 scales the samples by one half.
    sound.set_volume(128);
    assert_eq!(sound.next_sample().unwrap(), NextSample::Sample(500));
}

#[test]
fn tripled_volume_saturates_at_the_maximum() {
    // A multiplier of 768/256 scales the samples by three.
    let inner = ConstantValueSound::new(20000);
    let mut sound = AdjustableVolume::new_with_volume(inner, 768);
    assert_eq!(sound.volume(), 768);
    assert_eq!(sound.next_sample().unwrap(), NextSample::Sample(i16::MAX));
}

#[test]
fn volume_scales_negative_samples_towards_zero() {
    let inner = ConstantValueSound::new(-1000);
    let mut sound = AdjustableVolume::new_with_volume(inner, 128);
    assert_eq!(sound.next_sample().unwrap(), NextSample::Sample(-500));
}

#[test]
fn volume_passes_other_events_through() {
    let mut inner = ConstantValueSound::new(5);
    inner.set_sample_rate(48000);
    let mut sound = AdjustableVolume::new_with_volume(inner, 128);
    assert_eq!(sound.next_sample().unwrap(), NextSample::MetadataChanged);
    assert_eq!(sound.next_sample().unwrap(), NextSample::Sample(2));
}

#[test]
fn pausing_holds_the_inner_sound() {
    let mut sound = ConstantValueSound::new(77).pausable();
    assert_eq!(sound.next_sample().unwrap(), NextSample::Sample(77));
    sound.set_paused(true);
    assert!(sound.paused());
    assert_eq!(sound.next_sample().unwrap(), NextSample::Paused);
    assert_eq!(sound.next_sample().unwrap(), NextSample::Paused);
    sound.set_paused(false);
    assert_eq!(sound.next_sample().unwrap(), NextSample::Sample(77));
}

#[test]
fn capability_calls_forward_through_nested_wrappers() {
    let mut sound = ConstantValueSound::new(1000).with_adjustable_volume().stoppable();
    // The stoppable wrapper forwards the volume change to the volume
    // wrapper inside it.
    sound.set_volume(128);
    assert_eq!(sound.next_sample().unwrap(), NextSample::Sample(500));
}
