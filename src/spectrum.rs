use vstd::prelude::*;
use crate::error::AudioError;

verus! {

/// `n` is a power of two.
pub open spec fn is_pow2(n: nat) -> bool
    decreases n,
{
    if n == 1 {
        true
    } else if n < 2 || n % 2 == 1 {
        false
    } else {
        is_pow2(n / 2)
    }
}

/// A usable analysis window: a power of two of at least two samples, so that the hop
/// `W / 2` is never zero.
pub open spec fn valid_window(window_size: nat) -> bool {
    window_size >= 2 && is_pow2(window_size)
}

/// Number of analysis frames for `n` samples: `floor((n - W) / (W / 2))`.
pub open spec fn frame_count(n: int, window_size: int) -> int {
    (n - window_size) / (window_size / 2)
}

/// Tells whether `window_size` is a power of two of at least two samples.
pub fn is_valid_window_size(window_size: usize) -> (r: bool)
    ensures
        r == valid_window(window_size as nat),
{
    if window_size < 2 {
        return false;
    }
    let mut m: usize = window_size;
    while m > 1 && m % 2 == 0
        invariant
            m >= 1,
            is_pow2(m as nat) == is_pow2(window_size as nat),
        decreases m,
    {
        m = m / 2;
    }
    m == 1
}

/// How a buffer of `num_samples` samples is cut into half-overlapping windows.
#[derive(Debug, Clone, Copy, PartialEq, Eq, Structural)]
pub struct FramePlan {
    pub num_samples: usize,
    pub window_size: usize,
    pub hop_size: usize,
    pub num_frames: usize,
}

impl FramePlan {
    /// The plan fits its buffer: a valid window, a hop of half a window, and the frame
    /// count of the analysis.
    pub open spec fn wf(&self) -> bool {
        &&& valid_window(self.window_size as nat)
        &&& self.num_samples >= self.window_size
        &&& self.hop_size == self.window_size / 2
        &&& self.num_frames == frame_count(self.num_samples as int, self.window_size as int)
    }

    /// Start of each frame in samples: frame `k` covers `[k * hop, k * hop + W)`, which
    /// lies inside the buffer.
    pub fn frame_starts(&self) -> (r: Vec<usize>)
        requires
            self.wf(),
        ensures
            r@.len() == self.num_frames,
            forall|k: int| 0 <= k < r@.len() ==> r@[k] == k * self.hop_size,
            forall|k: int|
                0 <= k < r@.len() ==> r@[k] + self.window_size <= self.num_samples,
    {
        let mut out: Vec<usize> = Vec::new();
        let mut k: usize = 0;
        while k < self.num_frames
            invariant
                self.wf(),
                k <= self.num_frames,
                out@.len() == k,
                forall|j: int| 0 <= j < k ==> out@[j] == j * self.hop_size,
                forall|j: int| 0 <= j < k ==> out@[j] + self.window_size <= self.num_samples,
            decreases self.num_frames - k,
        {
            let h = self.hop_size;
            let f = self.num_frames;
            let n = self.num_samples;
            let w = self.window_size;
            assert(k * h + w <= n) by (nonlinear_arith)
                requires
                    0 <= k < f,
                    h > 0,
                    f as int == (n as int - w as int) / (h as int),
                    n >= w,
            ;
            out.push(k * self.hop_size);
            k = k + 1;
        }
        out
    }
}

/// Checks the window size and lays out the frames of a buffer of `num_samples` samples.
pub fn plan_frames(num_samples: usize, window_size: usize) -> (r: Result<FramePlan, AudioError>)
    ensures
        !valid_window(window_size as nat) ==> r == Err::<FramePlan, AudioError>(
            AudioError::InvalidWindowSize,
        ),
        valid_window(window_size as nat) && num_samples < window_size ==> r == Err::<
            FramePlan,
            AudioError,
        >(AudioError::InsufficientSamples),
        valid_window(window_size as nat) && num_samples >= window_size ==> r is Ok,
        r is Ok ==> {
            let p = r->Ok_0;
            &&& p.wf()
            &&& p.num_samples == num_samples
            &&& p.window_size == window_size
        },
{
    if !is_valid_window_size(window_size) {
        return Err(AudioError::InvalidWindowSize);
    }
    if num_samples < window_size {
        return Err(AudioError::InsufficientSamples);
    }
    let hop_size = window_size / 2;
    Ok(FramePlan { num_samples, window_size, hop_size, num_frames: (num_samples - window_size) / hop_size })
}

/// Numerators of the bin centre frequencies: bin `j` of a `W`-point transform at
/// `sample_rate` is centred on `j * sample_rate / W` Hz, for `j` in `[0, W / 2)`.
pub fn bin_numerators(sample_rate: u32, window_size: usize) -> (r: Vec<u128>)
    ensures
        r@.len() == window_size / 2,
        forall|j: int| 0 <= j < r@.len() ==> r@[j] == j * sample_rate,
{
    let half = window_size / 2;
    let mut out: Vec<u128> = Vec::new();
    let mut j: usize = 0;
    while j < half
        invariant
            half == window_size / 2,
            j <= half,
            out@.len() == j,
            forall|i: int| 0 <= i < j ==> out@[i] == i * sample_rate,
        decreases half - j,
    {
        assert(j as u128 * sample_rate as u128 <= u128::MAX) by (nonlinear_arith)
            requires
                j <= usize::MAX,
                sample_rate <= u32::MAX,
        ;
        out.push(j as u128 * sample_rate as u128);
        j = j + 1;
    }
    out
}

/// A spectrogram with exact time and frequency axes. Frame `k` starts at
/// `frame_starts[k] / sample_rate` seconds; bin `j` is centred on
/// `bin_numerators[j] / window_size` Hz; `magnitudes[k][j]` is the value of bin `j`
/// in frame `k`.
pub struct SpectrogramData<M> {
    pub sample_rate: u32,
    pub window_size: usize,
    pub frame_starts: Vec<usize>,
    pub bin_numerators: Vec<u128>,
    pub magnitudes: Vec<Vec<M>>,
}

impl<M> SpectrogramData<M> {
    /// Shape and axes: one row of magnitudes per frame, `W / 2` bins per row, frames
    /// half a window apart, and bins `sample_rate / W` Hz apart.
    pub open spec fn wf(&self) -> bool {
        &&& self.magnitudes@.len() == self.frame_starts@.len()
        &&& self.bin_numerators@.len() == self.window_size / 2
        &&& forall|k: int|
            0 <= k < self.magnitudes@.len() ==> self.magnitudes@[k]@.len()
                == self.bin_numerators@.len()
        &&& forall|k: int|
            0 <= k < self.frame_starts@.len() ==> self.frame_starts@[k] == k * (
            self.window_size / 2)
        &&& forall|j: int|
            0 <= j < self.bin_numerators@.len() ==> self.bin_numerators@[j] == j
                * self.sample_rate
    }
}

/// The first `h` entries of `v`.
fn leading<M: Copy>(v: &Vec<M>, h: usize) -> (r: Vec<M>)
    requires
        h <= v@.len(),
    ensures
        r@ == v@.subrange(0, h as int),
{
    let mut out: Vec<M> = Vec::new();
    let mut i: usize = 0;
    while i < h
        invariant
            h <= v@.len(),
            i <= h,
            out@ == v@.subrange(0, i as int),
        decreases h - i,
    {
        out.push(v[i]);
        i = i + 1;
        assert(out@ =~= v@.subrange(0, i as int));
    }
    out
}

/// Builds the spectrogram of a planned buffer from the full transform of each frame,
/// keeping the single-sided half: the first `W / 2` values of each transform, in frame
/// order.
pub fn assemble_spectrogram<M: Copy>(
    plan: &FramePlan,
    sample_rate: u32,
    spectra: &Vec<Vec<M>>,
) -> (r: SpectrogramData<M>)
    requires
        plan.wf(),
        spectra@.len() == plan.num_frames,
        forall|k: int| 0 <= k < spectra@.len() ==> spectra@[k]@.len() >= plan.window_size / 2,
    ensures
        r.wf(),
        r.sample_rate == sample_rate,
        r.window_size == plan.window_size,
        r.frame_starts@.len() == plan.num_frames,
        forall|k: int|
            0 <= k < r.magnitudes@.len() ==> r.magnitudes@[k]@ == spectra@[k]@.subrange(
                0,
                (plan.window_size / 2) as int,
            ),
{
    let half = plan.window_size / 2;
    let frame_starts = plan.frame_starts();
    let bins = bin_numerators(sample_rate, plan.window_size);
    let mut magnitudes: Vec<Vec<M>> = Vec::new();
    let mut k: usize = 0;
    while k < spectra.len()
        invariant
            half == plan.window_size / 2,
            k <= spectra@.len(),
            magnitudes@.len() == k,
            forall|i: int| 0 <= i < spectra@.len() ==> spectra@[i]@.len() >= half,
            forall|i: int|
                0 <= i < k ==> magnitudes@[i]@ == spectra@[i]@.subrange(0, half as int),
        decreases spectra@.len() - k,
    {
        let row = leading(&spectra[k], half);
        magnitudes.push(row);
        k = k + 1;
    }
    SpectrogramData { sample_rate, window_size: plan.window_size, frame_starts, bin_numerators: bins, magnitudes }
}

/// In a well-formed spectrogram there is one row of magnitudes per time point, and
/// every row has as many values as there are frequency bins, namely `W / 2`.
pub proof fn lemma_spectrogram_shape<M>(s: &SpectrogramData<M>)
    requires
        s.wf(),
    ensures
        s.magnitudes@.len() == s.frame_starts@.len(),
        s.bin_numerators@.len() == s.window_size / 2,
        forall|k: int|
            0 <= k < s.magnitudes@.len() ==> s.magnitudes@[k]@.len() == s.window_size / 2,
{
}

/// Bin centres are exact and strictly increasing: bin `j` is centred on
/// `j * sample_rate / W` Hz, and a later bin lies strictly above an earlier one.
pub proof fn lemma_frequencies_increasing<M>(s: &SpectrogramData<M>)
    requires
        s.wf(),
        s.sample_rate > 0,
    ensures
        forall|j: int| 0 <= j < s.bin_numerators@.len() ==> s.bin_numerators@[j] == j * s.sample_rate,
        forall|i: int, j: int|
            0 <= i < j < s.bin_numerators@.len() ==> s.bin_numerators@[i] < s.bin_numerators@[j],
{
    assert forall|i: int, j: int|
        0 <= i < j < s.bin_numerators@.len() implies s.bin_numerators@[i] < s.bin_numerators@[j] by {
        let r = s.sample_rate as int;
        assert(i * r < j * r) by (nonlinear_arith)
            requires
                0 <= i < j,
                r > 0,
        ;
    }
}

/// Frame start times are strictly increasing: frame `k` starts `k * W / 2` samples in.
pub proof fn lemma_time_points_increasing<M>(s: &SpectrogramData<M>)
    requires
        s.wf(),
        valid_window(s.window_size as nat),
    ensures
        forall|i: int, j: int|
            0 <= i < j < s.frame_starts@.len() ==> s.frame_starts@[i] < s.frame_starts@[j],
{
    assert forall|i: int, j: int|
        0 <= i < j < s.frame_starts@.len() implies s.frame_starts@[i] < s.frame_starts@[j] by {
        let h = (s.window_size / 2) as int;
        assert(i * h < j * h) by (nonlinear_arith)
            requires
                0 <= i < j,
                h > 0,
        ;
    }
}

} // verus!
