//! The slot of one model: whether its engine handle is resident, when it
//! was last used, and when it may be evicted.
//!
//! Time is a reading of a monotonic clock in milliseconds, handed in by the
//! caller. The engine handle is a value of the caller's type `H`; bringing
//! the engine up is the caller's work, between [`WhisperModel::ensure_loaded`]
//! and [`WhisperModel::complete_load`].

use vstd::prelude::*;
use vstd::string::*;
use crate::error::WhisperError;
use crate::model::ModelInfo;

verus! {

/// Idle time, in milliseconds, after which a fresh slot may be evicted.
pub const DEFAULT_IDLE_TIMEOUT_MS: u64 = 30_000;

/// What a caller has to do after asking for a resident handle.
#[derive(Debug, Clone, Copy, PartialEq, Eq, Structural)]
pub enum LoadStep {
    /// The handle is resident.
    Ready,
    /// The slot is now marked as loading: bring the engine up from the
    /// slot's path and report with `complete_load`.
    Load,
    /// A load is already under way and no handle is resident.
    Busy,
}

/// The mathematical content of a [`WhisperModel`].
pub struct SlotView<H> {
    /// Path that the engine is loaded from.
    pub path: Seq<char>,
    /// Descriptor given at registration.
    pub info: ModelInfo,
    /// The engine handle, if resident.
    pub handle: Option<H>,
    /// Clock reading of the last use.
    pub last_used: u64,
    /// Idle time after which the slot may be evicted.
    pub idle_timeout: u64,
    /// A load has been started and not reported yet.
    pub loading: bool,
}

impl<H> SlotView<H> {
    /// A slot as registration makes it: nothing resident, used at `now`.
    pub open spec fn fresh(path: Seq<char>, info: ModelInfo, now: u64) -> SlotView<H> {
        SlotView {
            path,
            info,
            handle: None,
            last_used: now,
            idle_timeout: DEFAULT_IDLE_TIMEOUT_MS,
            loading: false,
        }
    }

    /// An engine handle is present.
    pub open spec fn resident(self) -> bool {
        self.handle is Some
    }

    /// Bytes that the slot contributes to resident memory.
    pub open spec fn memory_usage(self) -> u64 {
        if self.resident() {
            self.info.memory_usage
        } else {
            0
        }
    }

    /// Time since the last use, at clock reading `now`. A reading from
    /// before the last use counts as no time at all.
    pub open spec fn idle_for(self, now: u64) -> nat {
        if now > self.last_used {
            (now - self.last_used) as nat
        } else {
            0
        }
    }

    /// The slot is resident and has been idle for longer than its timeout.
    pub open spec fn should_unload(self, now: u64) -> bool {
        self.resident() && self.idle_for(now) > self.idle_timeout
    }

    /// What a request for the handle finds.
    pub open spec fn load_step(self) -> LoadStep {
        if self.resident() {
            LoadStep::Ready
        } else if !self.loading {
            LoadStep::Load
        } else {
            LoadStep::Busy
        }
    }

    /// The slot after a request for the handle at `now`: it counts as
    /// used, and a load is under way unless the handle is resident.
    pub open spec fn requested(self, now: u64) -> SlotView<H> {
        SlotView { last_used: now, loading: self.loading || !self.resident(), ..self }
    }

    /// The slot after the engine came up with `handle`.
    pub open spec fn loaded(self, handle: H) -> SlotView<H> {
        SlotView { handle: Some(handle), loading: false, ..self }
    }

    /// The slot after the engine failed to come up.
    pub open spec fn load_abandoned(self) -> SlotView<H> {
        SlotView { loading: false, ..self }
    }

    /// The slot without its handle.
    pub open spec fn unloaded(self) -> SlotView<H> {
        SlotView { handle: None, ..self }
    }
}

/// The lifecycle record of one model.
pub struct WhisperModel<H> {
    ctx: Option<H>,
    model_path: String,
    model_info: ModelInfo,
    last_used: u64,
    idle_timeout: u64,
    is_loading: bool,
}

impl<H> View for WhisperModel<H> {
    type V = SlotView<H>;

    closed spec fn view(&self) -> SlotView<H> {
        SlotView {
            path: self.model_path@,
            info: self.model_info,
            handle: self.ctx,
            last_used: self.last_used,
            idle_timeout: self.idle_timeout,
            loading: self.is_loading,
        }
    }
}

impl<H> WhisperModel<H> {
    /// A slot for the model at `model_path`, with nothing resident, last
    /// used at `now`, and the default idle timeout.
    pub fn new(model_path: String, model_info: ModelInfo, now: u64) -> (slot: Self)
        ensures
            slot@ == SlotView::<H>::fresh(model_path@, model_info, now),
            slot@.memory_usage() == 0,
    {
        WhisperModel {
            ctx: None,
            model_path,
            model_info,
            last_used: now,
            idle_timeout: DEFAULT_IDLE_TIMEOUT_MS,
            is_loading: false,
        }
    }

    /// Asks for a resident handle at clock reading `now`. The slot counts
    /// as used whatever the answer. Where nothing is resident and no load
    /// is under way, the slot is marked as loading and the caller is told
    /// to load.
    pub fn ensure_loaded(&mut self, now: u64) -> (step: LoadStep)
        ensures
            step == old(self)@.load_step(),
            final(self)@ == old(self)@.requested(now),
    {
        self.last_used = now;
        if self.ctx.is_some() {
            LoadStep::Ready
        } else if !self.is_loading {
            self.is_loading = true;
            LoadStep::Load
        } else {
            LoadStep::Busy
        }
    }

    /// Reports how the load went. With a handle the slot becomes resident;
    /// with the engine's refusal it stays as it was, free for another
    /// attempt, and the refusal comes back as a `LoadFailure`.
    pub fn complete_load(&mut self, outcome: Result<H, String>) -> (r: Result<(), WhisperError>)
        ensures
            match outcome {
                Ok(handle) => r is Ok && final(self)@ == old(self)@.loaded(handle),
                Err(detail) => {
                    &&& final(self)@ == old(self)@.load_abandoned()
                    &&& r matches Err(WhisperError::LoadFailure(m))
                    &&& m@ == "Failed to load model: "@ + detail@
                },
            },
    {
        self.is_loading = false;
        match outcome {
            Ok(handle) => {
                self.ctx = Some(handle);
                Ok(())
            },
            Err(detail) => Err(WhisperError::load_failed(detail.as_str())),
        }
    }

    /// The resident handle, or the `LoadFailure` "Model not loaded".
    pub fn resident_handle(&self) -> (r: Result<&H, WhisperError>)
        ensures
            match r {
                Ok(handle) => self@.handle == Some(*handle),
                Err(e) => {
                    &&& !self@.resident()
                    &&& e matches WhisperError::LoadFailure(m)
                    &&& m@ == "Model not loaded"@
                },
            },
    {
        match &self.ctx {
            Some(handle) => Ok(handle),
            None => Err(WhisperError::not_loaded()),
        }
    }

    /// Whether the slot may be evicted at clock reading `now`: it is
    /// resident and has been idle for longer than its timeout.
    pub fn should_unload(&self, now: u64) -> (evict: bool)
        ensures
            evict == self@.should_unload(now),
    {
        self.ctx.is_some() && now > self.last_used && now - self.last_used > self.idle_timeout
    }

    /// Drops the engine handle, if there is one.
    pub fn unload(&mut self)
        ensures
            final(self)@ == old(self)@.unloaded(),
            final(self)@.memory_usage() == 0,
    {
        self.ctx = None;
    }

    /// Bytes that the slot contributes to resident memory: the model's
    /// footprint while the handle is resident, nothing otherwise.
    pub fn memory_usage(&self) -> (bytes: u64)
        ensures
            bytes == self@.memory_usage(),
    {
        if self.ctx.is_some() {
            self.model_info.memory_usage
        } else {
            0
        }
    }

    /// Path that the engine is loaded from.
    pub fn model_path(&self) -> (path: &str)
        ensures
            path@ == self@.path,
    {
        self.model_path.as_str()
    }

    /// Descriptor given at registration.
    pub fn model_info(&self) -> (info: &ModelInfo)
        ensures
            *info == self@.info,
    {
        &self.model_info
    }

    /// Whether an engine handle is resident.
    pub fn is_loaded(&self) -> (resident: bool)
        ensures
            resident == self@.resident(),
    {
        self.ctx.is_some()
    }

    /// Whether a load has been started and not reported yet.
    pub fn is_loading(&self) -> (loading: bool)
        ensures
            loading == self@.loading,
    {
        self.is_loading
    }

    /// Clock reading of the last use.
    pub fn last_used(&self) -> (at: u64)
        ensures
            at == self@.last_used,
    {
        self.last_used
    }

    /// Idle time, in milliseconds, after which the slot may be evicted.
    pub fn idle_timeout(&self) -> (ms: u64)
        ensures
            ms == self@.idle_timeout,
    {
        self.idle_timeout
    }

    /// Sets the idle time after which the slot may be evicted.
    pub fn set_idle_timeout(&mut self, ms: u64)
        ensures
            final(self)@ == (SlotView { idle_timeout: ms, ..old(self)@ }),
    {
        self.idle_timeout = ms;
    }
}

/// A slot contributes nothing to resident memory before its first load
/// and after an unload, and its registered footprint while resident. A
/// request for the handle changes nothing of this.
pub proof fn lemma_memory_follows_residency<H>(
    slot: SlotView<H>,
    path: Seq<char>,
    info: ModelInfo,
    handle: H,
    now: u64,
)
    ensures
        SlotView::<H>::fresh(path, info, now).memory_usage() == 0,
        slot.unloaded().memory_usage() == 0,
        slot.loaded(handle).memory_usage() == slot.info.memory_usage,
        slot.requested(now).memory_usage() == slot.memory_usage(),
        slot.load_abandoned().memory_usage() == slot.memory_usage(),
        slot.memory_usage() != 0 ==> slot.resident(),
{
}

/// The idle window of a slot that was requested at `now` and then became
/// resident: the slot is not up for eviction at `now` nor at any reading
/// up to the timeout later; it is at every reading `later` beyond that;
/// and a request at `later` closes the window again.
pub proof fn lemma_idle_window<H>(slot: SlotView<H>, handle: H, now: u64, later: u64)
    ensures
        !slot.requested(now).loaded(handle).should_unload(now),
        later <= now + slot.idle_timeout ==> !slot.requested(now).loaded(handle).should_unload(
            later,
        ),
        later > now + slot.idle_timeout ==> slot.requested(now).loaded(handle).should_unload(
            later,
        ),
        !slot.requested(now).loaded(handle).requested(later).should_unload(later),
        !slot.resident() ==> !slot.should_unload(later),
{
}

/// A load that fails leaves the slot without a handle and free for
/// another attempt: the next request asks for a load again.
pub proof fn lemma_failed_load_can_be_retried<H>(slot: SlotView<H>, now: u64, later: u64)
    requires
        slot.load_step() == LoadStep::Load,
    ensures
        slot.requested(now).loading,
        !slot.requested(now).load_abandoned().resident(),
        slot.requested(now).load_abandoned().load_step() == LoadStep::Load,
        slot.requested(now).load_abandoned().memory_usage() == 0,
{
}

} // verus!
