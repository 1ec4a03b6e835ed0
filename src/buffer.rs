use vstd::prelude::*;
use crate::resample::{convert_rate, resampled, resampled_len};

verus! {

/// A mono PCM buffer: samples in stream order and the rate they were taken at.
pub struct AudioData<S> {
    pub samples: Vec<S>,
    pub sample_rate: u32,
}

impl<S> AudioData<S> {
    /// A buffer that holds samples has a positive rate.
    pub open spec fn wf(&self) -> bool {
        self.samples@.len() > 0 ==> self.sample_rate > 0
    }
}

impl<S: Copy> AudioData<S> {
    /// The same signal at `target_rate`, by nearest-index conversion. Returns `None`
    /// when `target_rate` is zero, when a non-empty buffer has no rate, or when the
    /// converted buffer would not fit in memory. An empty buffer converts to an empty
    /// buffer at `target_rate`.
    pub fn with_rate(&self, target_rate: u32) -> (r: Option<AudioData<S>>)
        ensures
            r is Some <==> (target_rate > 0 && (self.samples@.len() == 0 || (self.sample_rate > 0
                && resampled_len(
                self.samples@.len() as int,
                self.sample_rate as int,
                target_rate as int,
            ) <= usize::MAX))),
            r is Some ==> {
                let a = r->Some_0;
                &&& a.wf()
                &&& a.sample_rate == target_rate
                &&& self.samples@.len() == 0 ==> a.samples@.len() == 0
                &&& self.sample_rate > 0 ==> a.samples@ == resampled(
                    self.samples@,
                    self.sample_rate as int,
                    target_rate as int,
                )
            },
    {
        if target_rate == 0 {
            return None;
        }
        if self.samples.len() == 0 {
            return Some(AudioData { samples: Vec::new(), sample_rate: target_rate });
        }
        match convert_rate(&self.samples, self.sample_rate, target_rate) {
            Some(samples) => Some(AudioData { samples, sample_rate: target_rate }),
            None => None,
        }
    }
}

} // verus!
