use voice_splitter::{DownSampleRate, PcmSample};

fn pcm(v: f32) -> PcmSample {
    PcmSample::new((v.clamp(-1.0, 1.0) * 32767.0).round() as i16)
}

fn pcms(values: &[f32]) -> Vec<PcmSample> {
    values.iter().map(|v| pcm(*v)).collect()
}

#[test]
fn test_same_rate() {
    let mut down_the_sample = DownSampleRate::new(1);

    down_the_sample.extend_from_slice(&pcms(&[0.0, 0.1, 0.2]));

    assert_eq!(down_the_sample.next().unwrap(), pcm(0.0));
    assert_eq!(down_the_sample.next().unwrap(), pcm(0.1));
    assert_eq!(down_the_sample.next().unwrap(), pcm(0.2));
    assert!(down_the_sample.next().is_none());
}

#[test]
fn test_down_2x() {
    let mut down_the_sample = DownSampleRate::new(2);
    down_the_sample.extend_from_slice(&pcms(&[0.0, 0.1, 0.2, 0.3]));

    assert_eq!(down_the_sample.next().unwrap(), pcm(0.1));
    assert_eq!(down_the_sample.next().unwrap(), pcm(0.3));
    assert!(down_the_sample.next().is_none());
}

#[test]
fn test_down_3x() {
    let mut down_the_sample = DownSampleRate::new(3);

    down_the_sample.extend_from_slice(&pcms(&[
        0.0, 0.1, 0.2, 0.3, 0.4, 0.5, 0.6, 0.7, 0.8, 0.9,
    ]));

    assert_eq!(down_the_sample.next().unwrap(), pcm(0.2));
    assert_eq!(down_the_sample.next().unwrap(), pcm(0.5));
    assert_eq!(down_the_sample.next().unwrap(), pcm(0.8));
    assert!(down_the_sample.next().is_none());
}

#[test]
fn test_down_2x_other_cases() {
    let mut down_the_sample = DownSampleRate::new(2);
    down_the_sample.extend_from_slice(&pcms(&[0.0, 0.1, 0.2]));

    assert_eq!(down_the_sample.next().unwrap(), pcm(0.1));
    assert!(down_the_sample.next().is_none());

    down_the_sample.extend_from_slice(&[pcm(0.3)]);

    assert_eq!(down_the_sample.next().unwrap(), pcm(0.3));
    assert!(down_the_sample.next().is_none());
}

#[test]
fn factor_one_ignores_batch_boundaries() {
    let input: Vec<PcmSample> = (0..17).map(|i| PcmSample::new(i * 100 - 800)).collect();
    let mut d = DownSampleRate::new(1);
    let mut out = Vec::new();
    d.extend(input[0..5].to_vec());
    out.push(d.next().unwrap());
    d.extend_from_slice(&input[5..6]);
    d.extend(input[6..17].to_vec());
    while let Some(s) = d.next() {
        out.push(s);
    }
    assert_eq!(out, input);
}

#[test]
fn factor_three_leaves_one_pending() {
    let mut d = DownSampleRate::new(3);
    d.extend(pcms(&[0.0, 0.1, 0.2, 0.3, 0.4, 0.5, 0.6, 0.7, 0.8, 0.9]));
    for _ in 0..3 {
        assert!(d.next().is_some());
    }
    assert!(d.next().is_none());
    d.extend(pcms(&[1.0]));
    assert!(d.next().is_none());
    d.extend(pcms(&[-1.0]));
    assert_eq!(d.next().unwrap(), PcmSample::new(-32767));
    assert!(d.next().is_none());
}

#[test]
fn chunking_does_not_change_decimation() {
    let input: Vec<PcmSample> = (0..40).map(|i| PcmSample::new(i)).collect();
    let mut whole = DownSampleRate::new(4);
    whole.extend(input.clone());
    let mut a = Vec::new();
    while let Some(s) = whole.next() {
        a.push(s);
    }
    let mut pieces = DownSampleRate::new(4);
    let mut b = Vec::new();
    for chunk in input.chunks(3) {
        pieces.extend_from_slice(chunk);
        while let Some(s) = pieces.next() {
            b.push(s);
        }
    }
    assert_eq!(a, b);
    let expected: Vec<PcmSample> = (0..10).map(|i| PcmSample::new(4 * i + 3)).collect();
    assert_eq!(a, expected);
}

#[test]
fn empty_decimator_yields_nothing() {
    let mut d = DownSampleRate::new(5);
    assert!(d.next().is_none());
    d.extend(Vec::new());
    assert!(d.next().is_none());
}
