//! The plain-value side of the foreign-function boundary: the handle that
//! stands for a registered model, the reply to a transcription request,
//! and the checks made on what comes in.

use vstd::prelude::*;
use vstd::string::*;
use crate::error::WhisperError;
use crate::manager::WhisperManager;
use crate::model::ModelInfo;
use crate::slot::SlotView;
use crate::text::{exchangeable, is_exchangeable, model_id_for_path, model_id_of};

verus! {

/// Stands for a registered model on the far side of the boundary. It
/// holds the identifier that the model is registered under.
pub struct WhisperHandle {
    model_id: String,
}

impl View for WhisperHandle {
    type V = Seq<char>;

    closed spec fn view(&self) -> Seq<char> {
        self.model_id@
    }
}

impl WhisperHandle {
    /// A handle for the model registered under `model_id`.
    pub fn new(model_id: String) -> (handle: WhisperHandle)
        ensures
            handle@ == model_id@,
    {
        WhisperHandle { model_id }
    }

    /// The identifier that the handle stands for.
    pub fn model_id(&self) -> (id: &str)
        ensures
            id@ == self@,
    {
        self.model_id.as_str()
    }
}

/// The reply to a transcription request. A string that holds a NUL
/// character cannot cross the boundary and is left out.
#[derive(Debug, Clone)]
pub struct WhisperResult {
    /// The request went through.
    pub success: bool,
    /// The transcript, on success.
    pub text: Option<String>,
    /// What went wrong, on failure.
    pub error: Option<String>,
}

impl WhisperResult {
    /// The reply reports success and carries `text`.
    pub open spec fn is_success_with(self, text: Seq<char>) -> bool {
        &&& self.success
        &&& self.text matches Some(t) && t@ == text
        &&& self.error is None
    }

    /// The reply reports a failure and carries `message`, if the message
    /// can cross the boundary.
    pub open spec fn is_failure_with(self, message: Seq<char>) -> bool {
        &&& !self.success
        &&& self.text is None
        &&& match self.error {
            Some(e) => exchangeable(message) && e@ == message,
            None => !exchangeable(message),
        }
    }

    /// The reply to a request that failed with `message`.
    pub fn failure(message: &str) -> (reply: WhisperResult)
        ensures
            reply.is_failure_with(message@),
    {
        let error: Option<String> = if is_exchangeable(message) {
            Some(String::from_str(message))
        } else {
            None
        };
        WhisperResult { success: false, text: None, error }
    }

    /// The reply to a request that ended with `outcome`: the transcript
    /// where there is one that can cross the boundary, an
    /// `EncodingFailure` where it cannot, and otherwise the failure's
    /// message.
    pub fn from_transcription(outcome: Result<String, WhisperError>) -> (reply: WhisperResult)
        ensures
            match outcome {
                Ok(text) => if exchangeable(text@) {
                    reply.is_success_with(text@)
                } else {
                    reply.is_failure_with(WhisperError::EncodingFailure.text())
                },
                Err(e) => reply.is_failure_with(e.text()),
            },
    {
        match outcome {
            Ok(text) => {
                if is_exchangeable(text.as_str()) {
                    WhisperResult { success: true, text: Some(text), error: None }
                } else {
                    let message: String = WhisperError::EncodingFailure.message();
                    WhisperResult::failure(message.as_str())
                }
            },
            Err(e) => {
                let message: String = e.message();
                WhisperResult::failure(message.as_str())
            },
        }
    }
}

/// Checks a transcription request before anything is touched: it needs a
/// handle and a buffer that holds at least one sample.
pub fn validate_request(has_handle: bool, has_audio: bool, audio_len: usize) -> (r: Result<
    (),
    WhisperError,
>)
    ensures
        r is Ok <==> has_handle && has_audio && audio_len > 0,
        r matches Err(e) ==> e is InvalidParameter,
{
    if !has_handle || !has_audio || audio_len == 0 {
        Err(WhisperError::InvalidParameter)
    } else {
        Ok(())
    }
}

/// Registers the model at `path` at clock reading `now` and hands out its
/// handle. The identifier and the descriptor are derived from the path;
/// a model registered from the same path before is replaced.
pub fn init_model<H>(manager: &mut WhisperManager<H>, path: &str, now: u64) -> (handle:
    WhisperHandle)
    requires
        old(manager).wf(),
    ensures
        final(manager).wf(),
        handle@ == model_id_of(path@),
        final(manager)@.contains(handle@),
        final(manager)@.slot(handle@).info.describes(path@),
        final(manager)@ == old(manager)@.registered(
            handle@,
            SlotView::fresh(path@, final(manager)@.slot(handle@).info, now),
        ),
{
    let id: String = model_id_for_path(path);
    let info: ModelInfo = ModelInfo::for_path(path);
    let handle: WhisperHandle = WhisperHandle::new(id.clone());
    manager.register_model(id, String::from_str(path), info, now);
    handle
}

} // verus!
