//! How a group of benchmarks is sampled.
//!
//! The statistics are the benchmarking framework's business; the library only
//! decides the budget it is given. The framework refuses a group whose
//! measurement or warm-up time is zero, whose sample size is under ten or
//! whose confidence level is not strictly between nought and one, so the
//! settings come with a check that they pass.

use vstd::prelude::*;

verus! {

/// How the framework spreads the iterations over the samples of a benchmark.
#[derive(Clone, Copy, Debug, PartialEq, Eq, Structural)]
pub enum Sampling {
    /// The framework chooses.
    Auto,
    /// The number of iterations grows linearly from sample to sample.
    Linear,
    /// Every sample has the same number of iterations.
    Flat,
}

/// The sampling budget of one group of benchmarks.
#[derive(Clone, Copy, Debug, PartialEq, Eq, Structural)]
pub struct GroupSettings {
    /// The time to spend measuring each benchmark, in milliseconds.
    pub measurement_millis: u64,
    /// The number of samples to take of each benchmark.
    pub sample_size: usize,
    /// The confidence level of the reported intervals, in per cent.
    pub confidence_percent: u8,
    /// How iterations are spread over the samples.
    pub sampling: Sampling,
    /// The time to run each benchmark before measuring it, in milliseconds.
    pub warm_up_millis: u64,
}

impl GroupSettings {
    /// Whether the framework takes the settings.
    pub open spec fn accepted(&self) -> bool {
        &&& self.measurement_millis > 0
        &&& self.warm_up_millis > 0
        &&& self.sample_size >= 10
        &&& 0 < self.confidence_percent < 100
    }

    /// The settings of every group of this suite: half a second of
    /// measurement after a tenth of a second of warm-up, a hundred samples
    /// with linear sampling, and a confidence level of 98 per cent.
    pub fn standard() -> (settings: Self)
        ensures
            settings == (GroupSettings {
                measurement_millis: 500,
                sample_size: 100,
                confidence_percent: 98,
                sampling: Sampling::Linear,
                warm_up_millis: 100,
            }),
            settings.accepted(),
    {
        GroupSettings {
            measurement_millis: 500,
            sample_size: 100,
            confidence_percent: 98,
            sampling: Sampling::Linear,
            warm_up_millis: 100,
        }
    }
}

} // verus!
