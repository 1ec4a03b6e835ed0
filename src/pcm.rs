use vstd::prelude::*;
use crate::error::AudioError;

verus! {

/// Fixed-point value of full scale: a sample `q` stands for the amplitude `q / FULL_SCALE`.
pub const FULL_SCALE: i64 = 0x8000_0000;

/// Fixed-point value of an unsigned 8-bit sample: `(x / 128) - 1`.
pub open spec fn fixed_u8(x: u8) -> int {
    (x as int - 0x80) * 0x100_0000
}

/// Fixed-point value of an unsigned 16-bit sample: `(x / 32768) - 1`.
pub open spec fn fixed_u16(x: u16) -> int {
    (x as int - 0x8000) * 0x1_0000
}

/// Fixed-point value of a packed unsigned 24-bit sample: `(x / 8388608) - 1`.
pub open spec fn fixed_u24(x: u32) -> int {
    (x as int - 0x80_0000) * 0x100
}

/// Fixed-point value of an unsigned 32-bit sample: `(x / 2147483648) - 1`.
pub open spec fn fixed_u32(x: u32) -> int {
    x as int - 0x8000_0000
}

/// Fixed-point value of a signed 8-bit sample: `x / 128`.
pub open spec fn fixed_i8(x: i8) -> int {
    x as int * 0x100_0000
}

/// Fixed-point value of a signed 16-bit sample: `x / 32768`.
pub open spec fn fixed_i16(x: i16) -> int {
    x as int * 0x1_0000
}

/// Fixed-point value of a packed signed 24-bit sample: `x / 8388608`.
pub open spec fn fixed_i24(x: i32) -> int {
    x as int * 0x100
}

/// Fixed-point value of a signed 32-bit sample: `x / 2147483648`.
pub open spec fn fixed_i32(x: i32) -> int {
    x as int
}

/// The first channel of one decoded packet, in the stream's native integer encoding.
/// Packed 24-bit samples are held in their 32-bit backing integer.
pub enum PcmChunk {
    U8(Vec<u8>),
    U16(Vec<u16>),
    U24(Vec<u32>),
    U32(Vec<u32>),
    S8(Vec<i8>),
    S16(Vec<i16>),
    S24(Vec<i32>),
    S32(Vec<i32>),
}

impl PcmChunk {
    /// Number of samples in the chunk.
    pub open spec fn spec_len(&self) -> nat {
        match self {
            PcmChunk::U8(v) => v@.len(),
            PcmChunk::U16(v) => v@.len(),
            PcmChunk::U24(v) => v@.len(),
            PcmChunk::U32(v) => v@.len(),
            PcmChunk::S8(v) => v@.len(),
            PcmChunk::S16(v) => v@.len(),
            PcmChunk::S24(v) => v@.len(),
            PcmChunk::S32(v) => v@.len(),
        }
    }

    /// Fixed-point value of the sample at index `i`.
    pub open spec fn fixed_at(&self, i: int) -> int {
        match self {
            PcmChunk::U8(v) => fixed_u8(v@[i]),
            PcmChunk::U16(v) => fixed_u16(v@[i]),
            PcmChunk::U24(v) => fixed_u24(v@[i]),
            PcmChunk::U32(v) => fixed_u32(v@[i]),
            PcmChunk::S8(v) => fixed_i8(v@[i]),
            PcmChunk::S16(v) => fixed_i16(v@[i]),
            PcmChunk::S24(v) => fixed_i24(v@[i]),
            PcmChunk::S32(v) => fixed_i32(v@[i]),
        }
    }

    /// Number of samples in the chunk.
    pub fn len(&self) -> (r: usize)
        ensures
            r == self.spec_len(),
    {
        match self {
            PcmChunk::U8(v) => v.len(),
            PcmChunk::U16(v) => v.len(),
            PcmChunk::U24(v) => v.len(),
            PcmChunk::U32(v) => v.len(),
            PcmChunk::S8(v) => v.len(),
            PcmChunk::S16(v) => v.len(),
            PcmChunk::S24(v) => v.len(),
            PcmChunk::S32(v) => v.len(),
        }
    }

    /// Fixed-point value of the sample at index `i`, by the normalization table.
    pub fn fixed_sample(&self, i: usize) -> (r: i64)
        requires
            i < self.spec_len(),
        ensures
            r as int == self.fixed_at(i as int),
    {
        match self {
            PcmChunk::U8(v) => (v[i] as i64 - 0x80) * 0x100_0000,
            PcmChunk::U16(v) => (v[i] as i64 - 0x8000) * 0x1_0000,
            PcmChunk::U24(v) => (v[i] as i64 - 0x80_0000) * 0x100,
            PcmChunk::U32(v) => v[i] as i64 - 0x8000_0000,
            PcmChunk::S8(v) => v[i] as i64 * 0x100_0000,
            PcmChunk::S16(v) => v[i] as i64 * 0x1_0000,
            PcmChunk::S24(v) => v[i] as i64 * 0x100,
            PcmChunk::S32(v) => v[i] as i64,
        }
    }

    /// The chunk as fixed-point samples, in stream order.
    pub fn to_fixed(&self) -> (r: Vec<i64>)
        ensures
            r@.len() == self.spec_len(),
            forall|i: int| 0 <= i < r@.len() ==> r@[i] as int == self.fixed_at(i),
    {
        let mut out: Vec<i64> = Vec::new();
        extend_fixed(&mut out, self);
        out
    }
}

/// Appends the fixed-point values of `chunk` to `samples`, keeping what was there and
/// the stream order.
pub fn extend_fixed(samples: &mut Vec<i64>, chunk: &PcmChunk)
    ensures
        final(samples)@.len() == old(samples)@.len() + chunk.spec_len(),
        forall|i: int| 0 <= i < old(samples)@.len() ==> final(samples)@[i] == old(samples)@[i],
        forall|i: int|
            0 <= i < chunk.spec_len() ==> final(samples)@[old(samples)@.len() + i] as int
                == chunk.fixed_at(i),
{
    let n = chunk.len();
    let mut i: usize = 0;
    while i < n
        invariant
            n == chunk.spec_len(),
            i <= n,
            samples@.len() == old(samples)@.len() + i,
            forall|j: int| 0 <= j < old(samples)@.len() ==> samples@[j] == old(samples)@[j],
            forall|j: int|
                0 <= j < i ==> samples@[old(samples)@.len() + j] as int == chunk.fixed_at(j),
        decreases n - i,
    {
        let q = chunk.fixed_sample(i);
        samples.push(q);
        i = i + 1;
    }
}

impl PcmChunk {
    /// Every sample of the chunk is the silent level of its encoding: zero for signed
    /// encodings, the midpoint for unsigned ones.
    pub open spec fn is_silence(&self) -> bool {
        match self {
            PcmChunk::U8(v) => forall|i: int| 0 <= i < v@.len() ==> v@[i] == 0x80,
            PcmChunk::U16(v) => forall|i: int| 0 <= i < v@.len() ==> v@[i] == 0x8000,
            PcmChunk::U24(v) => forall|i: int| 0 <= i < v@.len() ==> v@[i] == 0x80_0000,
            PcmChunk::U32(v) => forall|i: int| 0 <= i < v@.len() ==> v@[i] == 0x8000_0000,
            PcmChunk::S8(v) => forall|i: int| 0 <= i < v@.len() ==> v@[i] == 0,
            PcmChunk::S16(v) => forall|i: int| 0 <= i < v@.len() ==> v@[i] == 0,
            PcmChunk::S24(v) => forall|i: int| 0 <= i < v@.len() ==> v@[i] == 0,
            PcmChunk::S32(v) => forall|i: int| 0 <= i < v@.len() ==> v@[i] == 0,
        }
    }
}

/// Full-scale inputs of every integer encoding land on the unit bounds: the most
/// negative code maps to exactly `-1.0` and the most positive code to `1.0` less one
/// step of the encoding (`2^(32 - bits)` in fixed point).
pub proof fn lemma_full_scale_bounds()
    ensures
        fixed_u8(0) == -FULL_SCALE,
        fixed_u8(0xff) == FULL_SCALE - 0x100_0000,
        fixed_u16(0) == -FULL_SCALE,
        fixed_u16(0xffff) == FULL_SCALE - 0x1_0000,
        fixed_u24(0) == -FULL_SCALE,
        fixed_u24(0xff_ffff) == FULL_SCALE - 0x100,
        fixed_u32(0) == -FULL_SCALE,
        fixed_u32(0xffff_ffff) == FULL_SCALE - 1,
        fixed_i8(i8::MIN) == -FULL_SCALE,
        fixed_i8(0x7f) == FULL_SCALE - 0x100_0000,
        fixed_i16(i16::MIN) == -FULL_SCALE,
        fixed_i16(0x7fff) == FULL_SCALE - 0x1_0000,
        fixed_i24((-0x80_0000int) as i32) == -FULL_SCALE,
        fixed_i24(0x7f_ffff) == FULL_SCALE - 0x100,
        fixed_i32(i32::MIN) == -FULL_SCALE,
        fixed_i32(0x7fff_ffff) == FULL_SCALE - 1,
{
}

/// Decoding silence yields silence: a silent chunk of any encoding converts to
/// all-zero samples.
pub proof fn lemma_silence_is_zero(chunk: PcmChunk)
    requires
        chunk.is_silence(),
    ensures
        forall|i: int| 0 <= i < chunk.spec_len() ==> chunk.fixed_at(i) == 0,
{
}

/// The sample rate of the selected track: a track without a positive rate cannot be
/// decoded into a buffer.
pub fn track_sample_rate(rate: Option<u32>) -> (r: Result<u32, AudioError>)
    ensures
        r == (match rate {
            Some(x) if x > 0 => Ok::<u32, AudioError>(x),
            _ => Err::<u32, AudioError>(AudioError::NoAudioTrack),
        }),
{
    match rate {
        Some(x) if x > 0 => Ok(x),
        _ => Err(AudioError::NoAudioTrack),
    }
}

} // verus!
