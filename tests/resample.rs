use audio_core::{convert_rate, resample, AudioData};

#[test]
fn same_rate_is_identity() {
    let samples: Vec<f32> = vec![0.1, -0.5, 0.25, 1.0, -1.0];
    assert_eq!(resample(&samples, 16000, 16000), samples);
    let empty: Vec<f32> = vec![];
    assert_eq!(resample(&empty, 44100, 44100), empty);
}

#[test]
fn doubling_rate_doubles_length() {
    let n: usize = 16000;
    let samples: Vec<i64> = (0..n as i64).collect();
    let out = resample(&samples, 8000, 16000);
    assert_eq!(out.len(), 2 * n);
    for (i, v) in out.iter().enumerate() {
        assert_eq!(*v, (i / 2) as i64);
    }
}

#[test]
fn downsampling_drops_samples() {
    let samples: Vec<u32> = (0..10).collect();
    assert_eq!(resample(&samples, 48000, 16000), vec![0, 3, 6]);
}

#[test]
fn non_integer_ratio_uses_floor_index() {
    let samples: Vec<u32> = (0..4).collect();
    // 4 * 16000 / 44100 = 1 sample.
    assert_eq!(resample(&samples, 44100, 16000), vec![0]);
    // 3 samples at 2 Hz to 3 Hz: 4 samples, indices floor(i * 2 / 3).
    assert_eq!(resample(&vec![10u8, 20, 30], 2, 3), vec![10, 10, 20, 30]);
}

#[test]
fn empty_buffer_resamples_to_empty() {
    let empty: Vec<f32> = vec![];
    assert!(resample(&empty, 8000, 16000).is_empty());
}

#[test]
fn convert_rate_checks_its_inputs() {
    let samples: Vec<f32> = vec![0.5, -0.5, 0.25];
    assert_eq!(convert_rate(&samples, 0, 16000), None);
    assert_eq!(convert_rate(&samples, 8000, 0), None);
    assert_eq!(convert_rate(&samples, 16000, 16000), Some(samples.clone()));
    assert_eq!(convert_rate(&samples, 8000, 16000), Some(vec![0.5, 0.5, -0.5, -0.5, 0.25, 0.25]));
}

#[test]
fn buffer_converts_to_recognition_rate() {
    let audio = AudioData { samples: vec![1i64, 2, 3, 4], sample_rate: 8000 };
    let out = audio.with_rate(16000).unwrap();
    assert_eq!(out.sample_rate, 16000);
    assert_eq!(out.samples, vec![1, 1, 2, 2, 3, 3, 4, 4]);
    let same = audio.with_rate(8000).unwrap();
    assert_eq!(same.samples, audio.samples);
    assert!(audio.with_rate(0).is_none());
    let no_rate = AudioData { samples: vec![1i64], sample_rate: 0 };
    assert!(no_rate.with_rate(16000).is_none());
    let empty: AudioData<f32> = AudioData { samples: vec![], sample_rate: 0 };
    let e = empty.with_rate(16000).unwrap();
    assert!(e.samples.is_empty());
    assert_eq!(e.sample_rate, 16000);
}
