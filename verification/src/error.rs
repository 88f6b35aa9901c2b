//! The failures that the library and the layers around it report.

use vstd::prelude::*;
use vstd::string::*;

verus! {

/// The locks that a caller may fail to take.
#[derive(Debug, Clone, Copy, PartialEq, Eq, Structural)]
pub enum LockKind {
    /// The registry, for a change.
    RegistryWrite,
    /// The registry, for a look-up or a pass over the slots.
    RegistryRead,
    /// The slot of one model.
    Slot,
}

/// A failure, tagged by kind. Where a kind has more than one cause the
/// variant carries the full message.
#[derive(Debug, Clone)]
pub enum WhisperError {
    /// An input was absent or empty.
    InvalidParameter,
    /// No model is registered under the identifier carried here.
    ModelNotFound(String),
    /// The engine could not be brought up for a model; the message says
    /// why.
    LoadFailure(String),
    /// A lock could not be taken; the message says which.
    LockFailure(String),
    /// The engine failed on a request; the message says how.
    InferenceFailure(String),
    /// A transcript cannot be handed out as an exchange string.
    EncodingFailure,
}

impl WhisperError {
    /// The text that a caller is shown for the failure.
    pub open spec fn text(self) -> Seq<char> {
        match self {
            WhisperError::InvalidParameter => "Invalid parameters"@,
            WhisperError::ModelNotFound(id) => "Model '"@ + id@ + "' not found"@,
            WhisperError::LoadFailure(message) => message@,
            WhisperError::LockFailure(message) => message@,
            WhisperError::InferenceFailure(message) => message@,
            WhisperError::EncodingFailure => "Failed to convert transcription result"@,
        }
    }

    /// The failure of a load that the engine refused with `detail`.
    pub fn load_failed(detail: &str) -> (e: WhisperError)
        ensures
            e matches WhisperError::LoadFailure(m) && m@ == "Failed to load model: "@ + detail@,
    {
        WhisperError::LoadFailure(String::from_str("Failed to load model: ").concat(detail))
    }

    /// The failure of a request for a model that is not resident.
    pub fn not_loaded() -> (e: WhisperError)
        ensures
            e matches WhisperError::LoadFailure(m) && m@ == "Model not loaded"@,
    {
        WhisperError::LoadFailure(String::from_str("Model not loaded"))
    }

    /// The failure to take the lock `kind`.
    pub fn lock_failed(kind: LockKind) -> (e: WhisperError)
        ensures
            e matches WhisperError::LockFailure(m) && m@ == match kind {
                LockKind::RegistryWrite => "Failed to acquire write lock"@,
                LockKind::RegistryRead => "Failed to acquire read lock"@,
                LockKind::Slot => "Failed to acquire model lock"@,
            },
    {
        WhisperError::LockFailure(
            String::from_str(
                match kind {
                    LockKind::RegistryWrite => "Failed to acquire write lock",
                    LockKind::RegistryRead => "Failed to acquire read lock",
                    LockKind::Slot => "Failed to acquire model lock",
                },
            ),
        )
    }

    /// The failure of an engine run that ended with `detail`.
    pub fn transcription_failed(detail: &str) -> (e: WhisperError)
        ensures
            e matches WhisperError::InferenceFailure(m) && m@ == "Transcription failed: "@
                + detail@,
    {
        WhisperError::InferenceFailure(String::from_str("Transcription failed: ").concat(detail))
    }

    /// The failure of reading the number of output segments, with the
    /// engine's `detail`.
    pub fn segment_count_failed(detail: &str) -> (e: WhisperError)
        ensures
            e matches WhisperError::InferenceFailure(m) && m@ == "Failed to get segment count: "@
                + detail@,
    {
        WhisperError::InferenceFailure(
            String::from_str("Failed to get segment count: ").concat(detail),
        )
    }

    /// The text that a caller is shown for the failure.
    pub fn message(&self) -> (text: String)
        ensures
            text@ == self.text(),
    {
        match self {
            WhisperError::InvalidParameter => String::from_str("Invalid parameters"),
            WhisperError::ModelNotFound(id) => {
                let mut text: String = String::from_str("Model '");
                text.append(id.as_str());
                text.append("' not found");
                text
            },
            WhisperError::LoadFailure(message) => message.clone(),
            WhisperError::LockFailure(message) => message.clone(),
            WhisperError::InferenceFailure(message) => message.clone(),
            WhisperError::EncodingFailure => String::from_str(
                "Failed to convert transcription result",
            ),
        }
    }
}

} // verus!
