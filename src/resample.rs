use vstd::prelude::*;

verus! {

/// Number of samples after converting `n` samples from `source_rate` to `target_rate`:
/// `floor(n * target_rate / source_rate)`.
pub open spec fn resampled_len(n: int, source_rate: int, target_rate: int) -> int {
    n * target_rate / source_rate
}

/// Index of the source sample that output sample `i` repeats: `floor(i / r)` with
/// `r = target_rate / source_rate`, computed exactly as `floor(i * source_rate / target_rate)`.
pub open spec fn source_index(i: int, source_rate: int, target_rate: int) -> int {
    i * source_rate / target_rate
}

/// Nearest-index rate conversion of a whole sequence.
pub open spec fn resampled<S>(samples: Seq<S>, source_rate: int, target_rate: int) -> Seq<S> {
    Seq::new(
        resampled_len(samples.len() as int, source_rate, target_rate) as nat,
        |i: int| samples[source_index(i, source_rate, target_rate)],
    )
}

/// Every output position maps to a sample inside the source buffer.
proof fn lemma_source_index_in_range(i: int, n: int, source_rate: int, target_rate: int)
    requires
        0 <= i < resampled_len(n, source_rate, target_rate),
        0 <= n,
        0 < source_rate,
        0 < target_rate,
    ensures
        0 <= source_index(i, source_rate, target_rate) < n,
{
    let q = n * target_rate / source_rate;
    assert(source_rate * q <= n * target_rate) by (nonlinear_arith)
        requires
            q == n * target_rate / source_rate,
            0 < source_rate,
            0 <= n,
            0 < target_rate,
    ;
    assert(i * source_rate < n * target_rate) by (nonlinear_arith)
        requires
            source_rate * q <= n * target_rate,
            0 <= i < q,
            0 < source_rate,
    ;
    assert(0 <= i * source_rate / target_rate < n) by (nonlinear_arith)
        requires
            i * source_rate < n * target_rate,
            0 <= i,
            0 < source_rate,
            0 < target_rate,
    ;
}

/// Converts `samples` from `source_rate` to `target_rate` by repeating or dropping
/// samples: output sample `i` is `samples[floor(i * source_rate / target_rate)]`.
/// With exact integer arithmetic every such index lies inside the buffer, so the
/// output holds exactly `floor(len * target_rate / source_rate)` samples and no tail
/// sample is dropped.
pub fn resample<S: Copy>(samples: &Vec<S>, source_rate: u32, target_rate: u32) -> (r: Vec<S>)
    requires
        source_rate > 0,
        target_rate > 0,
        resampled_len(samples@.len() as int, source_rate as int, target_rate as int)
            <= usize::MAX,
    ensures
        r@ == resampled(samples@, source_rate as int, target_rate as int),
{
    let n = samples.len();
    assert(n as u128 * target_rate as u128 <= u128::MAX) by (nonlinear_arith)
        requires
            n <= usize::MAX,
            target_rate <= u32::MAX,
    ;
    let new_len = (n as u128 * target_rate as u128 / source_rate as u128) as usize;
    let mut out: Vec<S> = Vec::new();
    let mut i: usize = 0;
    while i < new_len
        invariant
            source_rate > 0,
            target_rate > 0,
            n == samples@.len(),
            new_len == resampled_len(n as int, source_rate as int, target_rate as int),
            i <= new_len,
            out@.len() == i,
            forall|j: int|
                0 <= j < i ==> out@[j] == samples@[source_index(
                    j,
                    source_rate as int,
                    target_rate as int,
                )],
        decreases new_len - i,
    {
        proof {
            lemma_source_index_in_range(i as int, n as int, source_rate as int, target_rate as int);
        }
        assert(i as u128 * source_rate as u128 <= u128::MAX) by (nonlinear_arith)
            requires
                i <= usize::MAX,
                source_rate <= u32::MAX,
        ;
        let idx = (i as u128 * source_rate as u128 / target_rate as u128) as usize;
        let s: S = samples[idx];
        out.push(s);
        i = i + 1;
    }
    assert(out@ =~= resampled(samples@, source_rate as int, target_rate as int));
    out
}

/// Converting to the rate a buffer already has returns the identical sequence.
pub proof fn lemma_resample_same_rate<S>(samples: Seq<S>, rate: int)
    requires
        rate > 0,
    ensures
        resampled(samples, rate, rate) == samples,
{
    assert(samples.len() * rate / rate == samples.len()) by (nonlinear_arith)
        requires
            rate > 0,
    ;
    assert forall|i: int| 0 <= i < samples.len() implies source_index(i, rate, rate) == i by {
        assert(i * rate / rate == i) by (nonlinear_arith)
            requires
                rate > 0,
        ;
    }
    assert(resampled(samples, rate, rate) =~= samples);
}

/// Converting to `k` times the source rate yields exactly `k` times as many samples,
/// each source sample repeated `k` times in order.
pub proof fn lemma_resample_integer_factor<S>(samples: Seq<S>, rate: int, k: int)
    requires
        rate > 0,
        k > 0,
    ensures
        resampled(samples, rate, k * rate).len() == k * samples.len(),
        forall|i: int|
            0 <= i < k * samples.len() ==> #[trigger] resampled(samples, rate, k * rate)[i] == samples[i
                / k],
{
    assert(samples.len() * (k * rate) / rate == k * samples.len()) by (nonlinear_arith)
        requires
            rate > 0,
            k > 0,
    ;
    assert forall|i: int| 0 <= i < k * samples.len() implies #[trigger] source_index(i, rate, k * rate) == i
        / k by {
        assert(i * rate / (k * rate) == i / k) by (nonlinear_arith)
            requires
                rate > 0,
                k > 0,
                i >= 0,
        ;
    }
}

/// Converts `samples` from `source_rate` to `target_rate` when that is possible: both
/// rates are positive and the output length fits in memory. Returns `None` otherwise.
/// A buffer already at `target_rate` comes back unchanged.
pub fn convert_rate<S: Copy>(samples: &Vec<S>, source_rate: u32, target_rate: u32) -> (r: Option<
    Vec<S>,
>)
    ensures
        r is Some <==> (source_rate > 0 && target_rate > 0 && resampled_len(
            samples@.len() as int,
            source_rate as int,
            target_rate as int,
        ) <= usize::MAX),
        r is Some ==> r->Some_0@ == resampled(samples@, source_rate as int, target_rate as int),
        r is Some && source_rate == target_rate ==> r->Some_0@ == samples@,
{
    if source_rate == 0 || target_rate == 0 {
        return None;
    }
    let n = samples.len();
    assert(n as u128 * target_rate as u128 <= u128::MAX) by (nonlinear_arith)
        requires
            n <= usize::MAX,
            target_rate <= u32::MAX,
    ;
    let new_len = n as u128 * target_rate as u128 / source_rate as u128;
    if new_len > usize::MAX as u128 {
        return None;
    }
    proof {
        lemma_resample_same_rate(samples@, source_rate as int);
    }
    Some(resample(samples, source_rate, target_rate))
}

} // verus!
