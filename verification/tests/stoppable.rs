use awedio::sounds::ConstantValueSound;
use awedio::wrappers::SetStopped;
use awedio::NextSample;
use awedio::Sound;

#[test]
fn set_stopped() {
    let mut first = ConstantValueSound::new(1000).stoppable();
    // starts unpaused
    assert_eq!(first.next_sample().unwrap(), NextSample::Sample(1000));
    first.set_stopped();
    assert_eq!(first.next_sample().unwrap(), NextSample::Finished);
    assert_eq!(first.next_sample().unwrap(), NextSample::Finished);
}

#[test]
fn stopped_wrapper_reports_inner_format() {
    let mut sound = ConstantValueSound::new(1);
    sound.set_channel_count(1);
    sound.set_sample_rate(48000);
    let wrapped = sound.stoppable();
    assert_eq!(wrapped.channel_count(), 1);
    assert_eq!(wrapped.sample_rate(), 48000);
    assert!(!wrapped.stopped());
}

#[test]
fn stopping_is_permanent_even_for_live_inner_sounds() {
    let mut wrapped = ConstantValueSound::new(123).stoppable();
    assert_eq!(wrapped.next_sample().unwrap(), NextSample::Sample(123));
    wrapped.set_stopped();
    assert!(wrapped.stopped());
    let mut i = 0;
    while i < 50 {
        assert_eq!(wrapped.next_sample().unwrap(), NextSample::Finished);
        i += 1;
    }
    // The inner sound itself would still produce samples.
    let mut inner = wrapped.into_inner();
    assert_eq!(inner.next_sample().unwrap(), NextSample::Sample(123));
}
