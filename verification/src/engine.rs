//! What the library fixes about a run of the inference engine, and what it
//! makes of the engine's answer. The run itself is the caller's work.

use vstd::prelude::*;
use vstd::string::*;
use crate::error::WhisperError;
use crate::text::{join_segments, transcript_of};

verus! {

/// Number of worker threads of an engine run.
pub const WORKER_THREADS: u32 = 4;

/// Highest CPU estimate, in percent.
pub const FULL_LOAD: u32 = 100;

/// The parameters of an engine run. Decoding is greedy.
#[derive(Debug, Clone)]
pub struct InferenceParams {
    /// Candidates that greedy decoding keeps.
    pub best_of: u32,
    /// Worker threads.
    pub n_threads: u32,
    /// Language of the audio.
    pub language: String,
    /// Print special tokens.
    pub print_special: bool,
    /// Print progress.
    pub print_progress: bool,
    /// Print results as they come.
    pub print_realtime: bool,
    /// Print a time stamp with each segment.
    pub print_timestamps: bool,
}

impl InferenceParams {
    /// These are the parameters that every run uses.
    pub open spec fn is_fixed(self) -> bool {
        &&& self.best_of == 1
        &&& self.n_threads == WORKER_THREADS
        &&& self.language@ == "en"@
        &&& !self.print_special
        &&& !self.print_progress
        &&& !self.print_realtime
        &&& !self.print_timestamps
    }

    /// The parameters that every run uses: greedy decoding with one
    /// candidate, four worker threads, English, and nothing printed.
    pub fn fixed() -> (params: InferenceParams)
        ensures
            params.is_fixed(),
    {
        InferenceParams {
            best_of: 1,
            n_threads: WORKER_THREADS,
            language: String::from_str("en"),
            print_special: false,
            print_progress: false,
            print_realtime: false,
            print_timestamps: false,
        }
    }
}

/// How a run of the engine ended.
#[derive(Debug, Clone)]
pub enum EngineOutcome {
    /// The run went through. The output segments follow in order; `None`
    /// stands for a segment whose text could not be read.
    Segments(Vec<Option<String>>),
    /// The run itself failed, with the engine's message.
    RunFailed(String),
    /// The run went through but the number of segments could not be read.
    CountFailed(String),
}

/// The CPU load, in percent, that a request of `elapsed_ms` milliseconds
/// counts for: one percent for every ten milliseconds, at most 100.
pub open spec fn estimate_of(elapsed_ms: u64) -> u32 {
    if elapsed_ms / 10 >= FULL_LOAD {
        FULL_LOAD
    } else {
        (elapsed_ms / 10) as u32
    }
}

/// The CPU estimate for a request that took `elapsed_ms` milliseconds.
pub fn cpu_estimate(elapsed_ms: u64) -> (percent: u32)
    ensures
        percent == estimate_of(elapsed_ms),
        percent <= FULL_LOAD,
{
    let scaled: u64 = elapsed_ms / 10;
    if scaled >= 100 {
        FULL_LOAD
    } else {
        scaled as u32
    }
}

/// What the caller of a transcription gets for an engine outcome: the
/// transcript of the segments, or an `InferenceFailure` with the engine's
/// message behind a fixed prefix.
pub fn conclude(outcome: &EngineOutcome) -> (r: Result<String, WhisperError>)
    ensures
        match *outcome {
            EngineOutcome::Segments(segments) => r matches Ok(text) && text@ == transcript_of(
                segments@,
            ),
            EngineOutcome::RunFailed(detail) => r matches Err(WhisperError::InferenceFailure(m))
                && m@ == "Transcription failed: "@ + detail@,
            EngineOutcome::CountFailed(detail) => r matches Err(WhisperError::InferenceFailure(m))
                && m@ == "Failed to get segment count: "@ + detail@,
        },
{
    match outcome {
        EngineOutcome::Segments(segments) => Ok(join_segments(segments)),
        EngineOutcome::RunFailed(detail) => Err(
            WhisperError::transcription_failed(detail.as_str()),
        ),
        EngineOutcome::CountFailed(detail) => Err(
            WhisperError::segment_count_failed(detail.as_str()),
        ),
    }
}

} // verus!
