//! Integer core of an audio analysis pipeline: exact fixed-point normalization of
//! decoded PCM chunks, nearest-index rate conversion, and the frame and bin layout
//! of a short-time Fourier transform spectrogram.
mod buffer;
mod error;
mod pcm;
mod resample;
mod spectrum;

pub use buffer::AudioData;
pub use error::AudioError;
pub use pcm::{
    extend_fixed, fixed_i16, fixed_i24, fixed_i32, fixed_i8, fixed_u16, fixed_u24, fixed_u32,
    fixed_u8, lemma_full_scale_bounds, lemma_silence_is_zero, track_sample_rate, PcmChunk, FULL_SCALE,
};
pub use resample::{
    convert_rate, lemma_resample_integer_factor, lemma_resample_same_rate, resample, resampled,
    resampled_len, source_index,
};
pub use spectrum::{
    assemble_spectrogram, bin_numerators, frame_count, is_pow2, is_valid_window_size,
    lemma_frequencies_increasing, lemma_spectrogram_shape, lemma_time_points_increasing,
    plan_frames, valid_window, FramePlan, SpectrogramData,
};
