use voice_splitter::pcm_sample::{is_silence, window_energy};
use voice_splitter::{PcmSample, VoiceDetector};

fn run_of(value: i16, n: usize) -> Vec<PcmSample> {
    vec![PcmSample::new(value); n]
}

#[test]
fn test() {
    let mut sd = VoiceDetector::new(50);

    sd.set_sample_rate(48000);

    assert_eq!(sd.window_size(), 960)
}

#[test]
fn window_and_silence_run_at_48k() {
    let mut sd = VoiceDetector::new(50);
    sd.set_sample_rate(48000);
    assert_eq!(sd.window_size(), 960);
    assert_eq!(sd.silence_run_threshold(), 144000);
    assert_eq!(sd.get_sample_rate(), 48000);
}

#[test]
fn window_rounds_to_nearest() {
    let mut sd = VoiceDetector::new(50);
    sd.set_sample_rate(44100);
    assert_eq!(sd.window_size(), 882);
    sd.set_sample_rate(8025);
    assert_eq!(sd.window_size(), 161);
    sd.set_sample_rate(8024);
    assert_eq!(sd.window_size(), 160);
    assert_eq!(sd.silence_run_threshold(), 24072);
    sd.set_sample_rate(u32::MAX);
    assert_eq!(sd.silence_run_threshold(), 3 * u32::MAX as u64);
}

#[test]
fn energy_is_plain_sum_of_squares() {
    let w = [PcmSample::new(3), PcmSample::new(-4), PcmSample::new(-32768)];
    assert_eq!(window_energy(&w), 9 + 16 + 1073741824);
    assert_eq!(window_energy(&[]), 0);
}

#[test]
fn energy_at_threshold_is_voiced() {
    let w = run_of(1, 20);
    assert!(!is_silence(&w, 20));
    assert!(is_silence(&w, 21));

    let mut at = VoiceDetector::new(20);
    at.set_sample_rate(1000);
    at.append_frames(&w);
    assert!(!at.is_silence());

    let mut above = VoiceDetector::new(21);
    above.set_sample_rate(1000);
    above.append_frames(&w);
    assert!(above.is_silence());
}

#[test]
fn nothing_classified_without_rate() {
    let mut sd = VoiceDetector::new(50);
    sd.append_frames(&run_of(1000, 5000));
    assert!(sd.is_silence());
    assert!(sd.try_get_chunk().is_none());
    sd.set_sample_rate(24);
    assert_eq!(sd.window_size(), 0);
    sd.append_frames(&run_of(1000, 100));
    assert!(sd.is_silence());
}

#[test]
fn two_utterances_come_out_newest_first() {
    // 1000 samples per second: windows of 20, 3000 samples close an
    // utterance, 200 samples of padding.
    let mut stream = Vec::new();
    stream.extend(run_of(0, 3200));
    stream.extend(run_of(1000, 400));
    stream.extend(run_of(0, 3400));
    stream.extend(run_of(2000, 400));
    stream.extend(run_of(0, 3400));

    let mut sd = VoiceDetector::new(50);
    sd.set_sample_rate(1000);
    for chunk in stream.chunks(333) {
        sd.append_frames(chunk);
    }
    assert!(sd.is_silence());

    let mut expected_first = run_of(0, 20);
    expected_first.extend(run_of(1000, 400));
    expected_first.extend(run_of(0, 220));
    let mut expected_second = run_of(0, 20);
    expected_second.extend(run_of(2000, 400));
    expected_second.extend(run_of(0, 220));

    let newest = sd.try_get_chunk().unwrap();
    let oldest = sd.try_get_chunk().unwrap();
    assert!(sd.try_get_chunk().is_none());
    assert_eq!(newest, expected_second);
    assert_eq!(oldest, expected_first);
}

#[test]
fn short_pause_does_not_close() {
    let mut sd = VoiceDetector::new(50);
    sd.set_sample_rate(1000);
    sd.append_frames(&run_of(500, 200));
    sd.append_frames(&run_of(0, 2000));
    sd.append_frames(&run_of(500, 200));
    sd.append_frames(&run_of(0, 2900));
    assert!(!sd.is_silence());
    assert!(sd.try_get_chunk().is_none());
    sd.append_frames(&run_of(0, 200));
    assert!(sd.is_silence());
    let u = sd.try_get_chunk().unwrap();
    // no lead-in: speech began with the first window
    let mut expected = run_of(500, 200);
    expected.extend(run_of(0, 2000));
    expected.extend(run_of(500, 200));
    expected.extend(run_of(0, 220));
    assert_eq!(u, expected);
}
