//! The tunable parameters an engine is built with.

use vstd::prelude::*;

verus! {

/// The parameters handed to the engine's constructor. The two real-valued
/// parameters are kept in thousandths, so that `2000` stands for `2.0`.
#[derive(Clone, Copy, Debug, PartialEq, Eq)]
pub struct EngineSettings {
    /// Least number of tokens in a summary.
    pub min_length: i64,
    /// Greatest number of tokens in a summary, if bounded.
    pub max_length: Option<i64>,
    /// Width of the beam search.
    pub num_beams: i64,
    /// Sampling temperature, in thousandths.
    pub temperature_milli: u32,
    /// Repetition penalty, in thousandths.
    pub repetition_penalty_milli: u32,
}

impl EngineSettings {
    /// The settings this service runs with.
    pub open spec fn serving_spec() -> EngineSettings {
        EngineSettings {
            min_length: 10,
            max_length: Some(300i64),
            num_beams: 20,
            temperature_milli: 2000,
            repetition_penalty_milli: 1500,
        }
    }

    /// Builds the settings this service runs with.
    pub fn serving() -> (s: EngineSettings)
        ensures
            s == Self::serving_spec(),
    {
        EngineSettings {
            min_length: 10,
            max_length: Some(300),
            num_beams: 20,
            temperature_milli: 2000,
            repetition_penalty_milli: 1500,
        }
    }
}

} // verus!
