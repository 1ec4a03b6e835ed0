use audio_core::{
    assemble_spectrogram, bin_numerators, is_valid_window_size, plan_frames, AudioError,
};

#[test]
fn window_sizes_are_validated() {
    for w in [2usize, 4, 8, 1024, 4096, 1 << 40] {
        assert!(is_valid_window_size(w), "{}", w);
    }
    for w in [0usize, 1, 3, 6, 1000, 1023, 1025, usize::MAX] {
        assert!(!is_valid_window_size(w), "{}", w);
    }
}

#[test]
fn invalid_window_is_rejected() {
    assert_eq!(plan_frames(10_000, 1000), Err(AudioError::InvalidWindowSize));
    assert_eq!(plan_frames(10_000, 0), Err(AudioError::InvalidWindowSize));
    assert_eq!(plan_frames(10_000, 1), Err(AudioError::InvalidWindowSize));
}

#[test]
fn short_or_empty_buffer_gives_no_frames() {
    assert_eq!(plan_frames(0, 1024), Err(AudioError::InsufficientSamples));
    assert_eq!(plan_frames(1023, 1024), Err(AudioError::InsufficientSamples));
}

#[test]
fn frame_count_follows_formula() {
    let plan = plan_frames(16000, 1024).unwrap();
    assert_eq!(plan.hop_size, 512);
    assert_eq!(plan.num_frames, (16000 - 1024) / 512);
    assert_eq!(plan.num_frames, 29);
    let starts = plan.frame_starts();
    assert_eq!(starts.len(), 29);
    assert_eq!(starts[0], 0);
    assert_eq!(starts[28], 28 * 512);
    assert!(starts[28] + 1024 <= 16000);
    let exact = plan_frames(1024, 1024).unwrap();
    assert_eq!(exact.num_frames, 0);
    assert!(exact.frame_starts().is_empty());
}

#[test]
fn bin_frequencies_are_exact_and_increasing() {
    let bins = bin_numerators(16000, 1024);
    assert_eq!(bins.len(), 512);
    for j in 0..bins.len() {
        assert_eq!(bins[j], j as u128 * 16000);
        if j > 0 {
            assert!(bins[j - 1] < bins[j]);
        }
    }
    // Bin 28 is centred on 28 * 16000 / 1024 = 437.5 Hz, the bin nearest 440 Hz.
    assert_eq!(bins[28] as f64 / 1024.0, 437.5);
}

#[test]
fn spectrogram_keeps_single_sided_half() {
    let plan = plan_frames(12, 4).unwrap();
    assert_eq!(plan.num_frames, 4);
    let spectra: Vec<Vec<f32>> = (0..4)
        .map(|k| (0..4).map(|j| (10 * k + j) as f32).collect())
        .collect();
    let s = assemble_spectrogram(&plan, 8000, &spectra);
    assert_eq!(s.magnitudes.len(), s.frame_starts.len());
    assert_eq!(s.bin_numerators.len(), 2);
    assert_eq!(s.bin_numerators, vec![0, 8000]);
    assert_eq!(s.frame_starts, vec![0, 2, 4, 6]);
    for (k, row) in s.magnitudes.iter().enumerate() {
        assert_eq!(row.len(), 2);
        assert_eq!(row, &vec![(10 * k) as f32, (10 * k + 1) as f32]);
    }
    assert_eq!(s.window_size, 4);
    assert_eq!(s.sample_rate, 8000);
}

#[test]
fn spectrogram_with_no_frames_is_empty() {
    let plan = plan_frames(8, 8).unwrap();
    let spectra: Vec<Vec<f32>> = vec![];
    let s = assemble_spectrogram(&plan, 44100, &spectra);
    assert!(s.magnitudes.is_empty());
    assert!(s.frame_starts.is_empty());
    assert_eq!(s.bin_numerators.len(), 4);
}
