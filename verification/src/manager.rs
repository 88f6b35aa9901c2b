//! The registry of model slots, with its memory budget and the shared CPU
//! monitor.
//!
//! The registry decides; the caller runs the engine. A transcription goes
//! through [`WhisperManager::begin_transcribe`], then, where that asks for
//! it, the load and [`WhisperManager::complete_load`], then the engine run
//! on [`WhisperManager::resident_handle`], and ends with
//! [`WhisperManager::finish_transcribe`].

use vstd::prelude::*;
use vstd::string::*;
use crate::cpu::{CpuMonitor, CpuWindow};
use crate::engine::{conclude, cpu_estimate, estimate_of, EngineOutcome};
use crate::error::WhisperError;
use crate::model::{ModelInfo, DOWNGRADE_THRESHOLD, MIB};
use crate::slot::{LoadStep, SlotView, WhisperModel};
use crate::text::{contains, has_substring, transcript_of};

verus! {

/// Bytes of resident memory above which idle models are evicted.
pub const GLOBAL_MEMORY_LIMIT: u64 = 700 * MIB;

/// Sum of what a run of slots contributes to resident memory.
pub open spec fn total_of<H>(slots: Seq<SlotView<H>>) -> nat
    decreases slots.len(),
{
    if slots.len() == 0 {
        0
    } else {
        total_of(slots.drop_last()) + slots.last().memory_usage() as nat
    }
}

/// The slot as a governance pass at `now` leaves it, where the budget is
/// exceeded.
pub open spec fn evicted_if_idle<H>(slot: SlotView<H>, now: u64) -> SlotView<H> {
    if slot.should_unload(now) {
        slot.unloaded()
    } else {
        slot
    }
}

/// The cheaper variant to switch to from the model `id`, under a CPU
/// window `window`: `small` for a medium model and `tiny` for a small one,
/// where the mean load is above the threshold; nothing otherwise.
pub open spec fn suggestion_for(window: CpuWindow, id: Seq<char>) -> Option<Seq<char>> {
    if !window.mean_exceeds(DOWNGRADE_THRESHOLD) {
        None
    } else if has_substring(id, "medium"@) {
        Some("small"@)
    } else if has_substring(id, "small"@) {
        Some("tiny"@)
    } else {
        None
    }
}

/// The mathematical content of a [`WhisperManager`]: the identifiers in
/// the order of their first registration, the slot of each, the budget and
/// the CPU window.
pub struct RegistryView<H> {
    /// Registered identifiers.
    pub ids: Seq<Seq<char>>,
    /// The slot of each identifier, at the same position.
    pub slots: Seq<SlotView<H>>,
    /// The memory budget in bytes.
    pub memory_limit: u64,
    /// The CPU window.
    pub monitor: CpuWindow,
}

impl<H> RegistryView<H> {
    /// Every identifier has one slot and stands once.
    pub open spec fn wf(self) -> bool {
        &&& self.ids.len() == self.slots.len()
        &&& forall|i: int, j: int|
            0 <= i < j < self.ids.len() ==> self.ids[i] != self.ids[j]
        &&& self.monitor.wf()
    }

    /// A model is registered under `id`.
    pub open spec fn contains(self, id: Seq<char>) -> bool {
        exists|i: int| 0 <= i < self.ids.len() && self.ids[i] == id
    }

    /// The position of `id`.
    pub open spec fn index_of(self, id: Seq<char>) -> int {
        choose|i: int| 0 <= i < self.ids.len() && self.ids[i] == id
    }

    /// The slot registered under `id`.
    pub open spec fn slot(self, id: Seq<char>) -> SlotView<H> {
        self.slots[self.index_of(id)]
    }

    /// Bytes resident over all slots.
    pub open spec fn resident_total(self) -> nat {
        total_of(self.slots)
    }

    /// Resident memory is above the budget.
    pub open spec fn over_budget(self) -> bool {
        self.resident_total() > self.memory_limit
    }

    /// The registry with `slot` under `id`, in place of what was there.
    pub open spec fn registered(self, id: Seq<char>, slot: SlotView<H>) -> RegistryView<H> {
        if self.contains(id) {
            RegistryView { slots: self.slots.update(self.index_of(id), slot), ..self }
        } else {
            RegistryView { ids: self.ids.push(id), slots: self.slots.push(slot), ..self }
        }
    }

    /// The registry after a governance pass at `now`: over budget, every
    /// slot that has been idle for longer than its timeout is without its
    /// handle; nothing else differs.
    pub open spec fn governed(self, now: u64) -> RegistryView<H> {
        if self.over_budget() {
            RegistryView {
                slots: Seq::new(self.slots.len(), |i: int| evicted_if_idle(self.slots[i], now)),
                ..self
            }
        } else {
            self
        }
    }

    /// The registry with the slot of `id` replaced.
    pub open spec fn with_slot(self, id: Seq<char>, slot: SlotView<H>) -> RegistryView<H> {
        RegistryView { slots: self.slots.update(self.index_of(id), slot), ..self }
    }

    /// The registry with one more CPU sample.
    pub open spec fn sampled(self, percent: u32) -> RegistryView<H> {
        RegistryView { monitor: self.monitor.recorded(percent), ..self }
    }
}

struct Entry<H> {
    id: String,
    slot: WhisperModel<H>,
}

/// Registry of models, each in a slot of its own.
pub struct WhisperManager<H> {
    models: Vec<Entry<H>>,
    memory_limit: u64,
    cpu_monitor: CpuMonitor,
}

impl<H> View for WhisperManager<H> {
    type V = RegistryView<H>;

    closed spec fn view(&self) -> RegistryView<H> {
        RegistryView {
            ids: Seq::new(self.models@.len(), |i: int| self.models@[i].id@),
            slots: Seq::new(self.models@.len(), |i: int| self.models@[i].slot@),
            memory_limit: self.memory_limit,
            monitor: self.cpu_monitor@,
        }
    }
}

/// Adding a slot at the end raises the total by its contribution.
pub proof fn lemma_total_push<H>(slots: Seq<SlotView<H>>, slot: SlotView<H>)
    ensures
        total_of(slots.push(slot)) == total_of(slots) + slot.memory_usage(),
{
    assert(slots.push(slot).drop_last() =~= slots);
}

impl<H> WhisperManager<H> {
    /// Well-formedness: every identifier stands once, and the CPU window
    /// is one that recording can reach.
    pub open spec fn wf(&self) -> bool {
        self@.wf()
    }

    /// An empty registry with the global budget and a CPU monitor that
    /// has seen nothing.
    pub fn new() -> (manager: Self)
        ensures
            manager.wf(),
            manager@.ids.len() == 0,
            manager@.memory_limit == GLOBAL_MEMORY_LIMIT,
            manager@.monitor == CpuWindow::empty(),
    {
        WhisperManager {
            models: Vec::new(),
            memory_limit: GLOBAL_MEMORY_LIMIT,
            cpu_monitor: CpuMonitor::new(),
        }
    }

    /// Position of `id` among the entries.
    fn find(&self, id: &str) -> (r: Option<usize>)
        requires
            self.wf(),
        ensures
            match r {
                Some(i) => self@.contains(id@) && i == self@.index_of(id@) && i
                    < self.models@.len(),
                None => !self@.contains(id@),
            },
    {
        let key: String = String::from_str(id);
        let n: usize = self.models.len();
        let mut i: usize = 0;
        while i < n
            invariant
                self.wf(),
                n == self.models@.len(),
                i <= n,
                key@ == id@,
                forall|k: int| 0 <= k < i ==> self@.ids[k] != id@,
            decreases n - i,
        {
            if self.models[i].id == key {
                assert(self@.ids[i as int] == id@);
                return Some(i);
            }
            i = i + 1;
        }
        None
    }

    /// Registers the model at `model_path` under `id`, in a fresh slot
    /// with nothing resident. A slot that stood under `id` before is
    /// replaced, with whatever it held.
    pub fn register_model(&mut self, id: String, model_path: String, model_info: ModelInfo, now: u64)
        requires
            old(self).wf(),
        ensures
            final(self).wf(),
            final(self)@ == old(self)@.registered(
                id@,
                SlotView::fresh(model_path@, model_info, now),
            ),
            final(self)@.contains(id@),
            final(self)@.slot(id@) == SlotView::<H>::fresh(model_path@, model_info, now),
    {
        let found: Option<usize> = self.find(id.as_str());
        let slot: WhisperModel<H> = WhisperModel::new(model_path, model_info, now);
        let ghost key = id@;
        let ghost fresh = slot@;
        match found {
            Some(i) => {
                self.models.set(i, Entry { id, slot });
                assert(self@.ids =~= old(self)@.ids);
                assert(self@.slots =~= old(self)@.slots.update(i as int, fresh));
                assert(self@.ids[i as int] == key);
            },
            None => {
                self.models.push(Entry { id, slot });
                assert(self@.ids =~= old(self)@.ids.push(key));
                assert(self@.slots =~= old(self)@.slots.push(fresh));
                assert(self@.ids[old(self)@.ids.len() as int] == key);
            },
        }
    }

    /// Bytes resident over all slots, exactly.
    fn resident_total(&self) -> (total: u128)
        ensures
            total == self@.resident_total(),
    {
        let n: usize = self.models.len();
        let mut total: u128 = 0;
        let mut i: usize = 0;
        while i < n
            invariant
                n == self.models@.len(),
                i <= n,
                total == total_of(self@.slots.subrange(0, i as int)),
                total <= i * u64::MAX,
            decreases n - i,
        {
            proof {
                lemma_total_push(self@.slots.subrange(0, i as int), self@.slots[i as int]);
                assert(self@.slots.subrange(0, i + 1) =~= self@.slots.subrange(0, i as int).push(
                    self@.slots[i as int],
                ));
                assert((i + 1) * u64::MAX == i * u64::MAX + u64::MAX) by (nonlinear_arith);
                assert((i + 1) * u64::MAX <= u128::MAX) by (nonlinear_arith)
                    requires
                        i < 0x1_0000_0000_0000_0000,
                ;
            }
            total = total + self.models[i].slot.memory_usage() as u128;
            i = i + 1;
        }
        assert(self@.slots.subrange(0, n as int) =~= self@.slots);
        total
    }

    /// Bytes resident over all slots: the sum of what each slot
    /// contributes, or `u64::MAX` where the sum is beyond that.
    pub fn current_memory_usage(&self) -> (bytes: u64)
        ensures
            bytes == if self@.resident_total() <= u64::MAX {
                self@.resident_total()
            } else {
                u64::MAX as nat
            },
    {
        let total: u128 = self.resident_total();
        if total <= u64::MAX as u128 {
            total as u64
        } else {
            u64::MAX
        }
    }

    /// One governance pass at clock reading `now`. Where resident memory
    /// is above the budget, every slot that has been idle for longer than
    /// its timeout is unloaded. A slot inside its idle window stays as it
    /// is, whatever the total.
    pub fn manage_memory(&mut self, now: u64)
        requires
            old(self).wf(),
        ensures
            final(self).wf(),
            final(self)@ == old(self)@.governed(now),
    {
        let total: u128 = self.resident_total();
        if total > self.memory_limit as u128 {
            let n: usize = self.models.len();
            let mut i: usize = 0;
            while i < n
                invariant
                    n == self.models@.len(),
                    i <= n,
                    self@.ids == old(self)@.ids,
                    self@.memory_limit == old(self)@.memory_limit,
                    self@.monitor == old(self)@.monitor,
                    self@.slots.len() == n,
                    old(self)@.slots.len() == n,
                    forall|k: int|
                        0 <= k < i ==> self@.slots[k] == evicted_if_idle(old(self)@.slots[k], now),
                    forall|k: int| i <= k < n ==> self@.slots[k] == old(self)@.slots[k],
                decreases n - i,
            {
                let ghost before = self@;
                if self.models[i].slot.should_unload(now) {
                    self.models[i].slot.unload();
                }
                assert(self@.ids =~= before.ids);
                assert(self@.slots[i as int] == evicted_if_idle(before.slots[i as int], now));
                assert forall|k: int| 0 <= k < i + 1 implies self@.slots[k] == evicted_if_idle(
                    old(self)@.slots[k],
                    now,
                ) by {
                    if k < i {
                        assert(self@.slots[k] == before.slots[k]);
                    }
                }
                assert forall|k: int| i + 1 <= k < n implies self@.slots[k] == old(
                    self,
                )@.slots[k] by {
                    assert(self@.slots[k] == before.slots[k]);
                }
                i = i + 1;
            }
            assert(self@.slots =~= old(self)@.governed(now).slots);
        }
    }

    /// Opens a transcription on `model_id` at clock reading `now`: first a
    /// governance pass, then the look-up, then the request for the slot's
    /// handle. An unknown identifier is refused after the pass. For a
    /// known one the answer says whether the handle is resident or the
    /// caller has to load.
    pub fn begin_transcribe(&mut self, model_id: &str, now: u64) -> (r: Result<
        LoadStep,
        WhisperError,
    >)
        requires
            old(self).wf(),
        ensures
            final(self).wf(),
            ({
                let governed = old(self)@.governed(now);
                let slot = governed.slot(model_id@);
                if old(self)@.contains(model_id@) {
                    &&& r matches Ok(step) && step == slot.load_step()
                    &&& final(self)@ == governed.with_slot(model_id@, slot.requested(now))
                } else {
                    &&& r matches Err(WhisperError::ModelNotFound(id)) && id@ == model_id@
                    &&& final(self)@ == governed
                }
            }),
    {
        self.manage_memory(now);
        let ghost governed = self@;
        match self.find(model_id) {
            Some(i) => {
                let step: LoadStep = self.models[i].slot.ensure_loaded(now);
                assert(self@.ids =~= governed.ids);
                assert(self@.slots =~= governed.slots.update(
                    i as int,
                    governed.slots[i as int].requested(now),
                ));
                Ok(step)
            },
            None => Err(WhisperError::ModelNotFound(String::from_str(model_id))),
        }
    }

    /// Reports how the load for `model_id` went. With a handle the slot
    /// becomes resident. With the engine's refusal the slot stays
    /// unloaded, free for another attempt, and the refusal comes back as a
    /// `LoadFailure`.
    pub fn complete_load(&mut self, model_id: &str, outcome: Result<H, String>) -> (r: Result<
        (),
        WhisperError,
    >)
        requires
            old(self).wf(),
        ensures
            final(self).wf(),
            ({
                let slot = old(self)@.slot(model_id@);
                if !old(self)@.contains(model_id@) {
                    &&& r matches Err(WhisperError::ModelNotFound(id)) && id@ == model_id@
                    &&& final(self)@ == old(self)@
                } else {
                    match outcome {
                        Ok(handle) => {
                            &&& r is Ok
                            &&& final(self)@ == old(self)@.with_slot(model_id@, slot.loaded(handle))
                        },
                        Err(detail) => {
                            &&& r matches Err(WhisperError::LoadFailure(m)) && m@
                                == "Failed to load model: "@ + detail@
                            &&& final(self)@ == old(self)@.with_slot(
                                model_id@,
                                slot.load_abandoned(),
                            )
                        },
                    }
                }
            }),
    {
        match self.find(model_id) {
            Some(i) => {
                let r = self.models[i].slot.complete_load(outcome);
                assert(self@.ids =~= old(self)@.ids);
                assert(self@.slots =~= old(self)@.slots.update(i as int, self@.slots[i as int]));
                r
            },
            None => Err(WhisperError::ModelNotFound(String::from_str(model_id))),
        }
    }

    /// The resident engine handle of `model_id`, for the engine run.
    pub fn resident_handle(&self, model_id: &str) -> (r: Result<&H, WhisperError>)
        requires
            self.wf(),
        ensures
            match r {
                Ok(handle) => self@.contains(model_id@) && self@.slot(model_id@).handle == Some(
                    *handle,
                ),
                Err(e) => if self@.contains(model_id@) {
                    &&& !self@.slot(model_id@).resident()
                    &&& e matches WhisperError::LoadFailure(m)
                    &&& m@ == "Model not loaded"@
                } else {
                    e matches WhisperError::ModelNotFound(id) && id@ == model_id@
                },
            },
    {
        match self.find(model_id) {
            Some(i) => self.models[i].slot.resident_handle(),
            None => Err(WhisperError::ModelNotFound(String::from_str(model_id))),
        }
    }

    /// Closes a transcription that took `elapsed_ms` milliseconds. For a
    /// run that went through, the transcript is assembled and the CPU
    /// estimate of the request is recorded. A failed run is reported and
    /// leaves the monitor as it is.
    pub fn finish_transcribe(&mut self, outcome: &EngineOutcome, elapsed_ms: u64) -> (r: Result<
        String,
        WhisperError,
    >)
        requires
            old(self).wf(),
        ensures
            final(self).wf(),
            match *outcome {
                EngineOutcome::Segments(segments) => {
                    &&& r matches Ok(text) && text@ == transcript_of(segments@)
                    &&& final(self)@ == old(self)@.sampled(estimate_of(elapsed_ms))
                },
                EngineOutcome::RunFailed(detail) => {
                    &&& r matches Err(WhisperError::InferenceFailure(m)) && m@
                        == "Transcription failed: "@ + detail@
                    &&& final(self)@ == old(self)@
                },
                EngineOutcome::CountFailed(detail) => {
                    &&& r matches Err(WhisperError::InferenceFailure(m)) && m@
                        == "Failed to get segment count: "@ + detail@
                    &&& final(self)@ == old(self)@
                },
            },
    {
        let r = conclude(outcome);
        if r.is_ok() {
            self.cpu_monitor.record_cpu_usage(cpu_estimate(elapsed_ms));
        }
        r
    }

    /// The cheaper variant to switch to from `current_model`, if the mean
    /// CPU load is above the threshold: `small` for an identifier that
    /// holds `medium`, `tiny` for one that holds `small`.
    pub fn suggest_model_downgrade(&self, current_model: &str) -> (r: Option<String>)
        requires
            self.wf(),
        ensures
            match r {
                Some(name) => suggestion_for(self@.monitor, current_model@) == Some(name@),
                None => suggestion_for(self@.monitor, current_model@) is None,
            },
    {
        if self.cpu_monitor.should_downgrade(DOWNGRADE_THRESHOLD) {
            if contains(current_model, "medium") {
                return Some(String::from_str("small"));
            } else if contains(current_model, "small") {
                return Some(String::from_str("tiny"));
            }
        }
        None
    }

    /// The slot registered under `model_id`.
    pub fn slot(&self, model_id: &str) -> (r: Option<&WhisperModel<H>>)
        requires
            self.wf(),
        ensures
            match r {
                Some(slot) => self@.contains(model_id@) && slot@ == self@.slot(model_id@),
                None => !self@.contains(model_id@),
            },
    {
        match self.find(model_id) {
            Some(i) => Some(&self.models[i].slot),
            None => None,
        }
    }

    /// The CPU monitor.
    pub fn cpu_monitor(&self) -> (monitor: &CpuMonitor)
        ensures
            monitor@ == self@.monitor,
    {
        &self.cpu_monitor
    }

    /// The memory budget in bytes.
    pub fn memory_limit(&self) -> (bytes: u64)
        ensures
            bytes == self@.memory_limit,
    {
        self.memory_limit
    }

    /// Number of registered models.
    pub fn model_count(&self) -> (n: usize)
        ensures
            n == self@.ids.len(),
    {
        self.models.len()
    }
}

/// Unloading slots never raises the total.
pub proof fn lemma_total_after_eviction<H>(slots: Seq<SlotView<H>>, now: u64)
    ensures
        total_of(Seq::new(slots.len(), |i: int| evicted_if_idle(slots[i], now))) <= total_of(
            slots,
        ),
    decreases slots.len(),
{
    let after = Seq::new(slots.len(), |i: int| evicted_if_idle(slots[i], now));
    if slots.len() > 0 {
        lemma_total_after_eviction(slots.drop_last(), now);
        assert(after.drop_last() =~= Seq::new(
            slots.drop_last().len(),
            |i: int| evicted_if_idle(slots.drop_last()[i], now),
        ));
    }
}

/// What a governance pass does and does not do. It keeps the identifiers,
/// the budget and the CPU window. A slot loses its handle only where the
/// budget was exceeded and the slot had been idle for longer than its
/// timeout; nothing else of it changes. A slot inside its idle window
/// stays as it is, even if the total stays above the budget. The total
/// never grows.
pub proof fn lemma_governance<H>(registry: RegistryView<H>, now: u64, k: int)
    requires
        registry.wf(),
        0 <= k < registry.slots.len(),
    ensures
        registry.governed(now).wf(),
        registry.governed(now).ids == registry.ids,
        registry.governed(now).memory_limit == registry.memory_limit,
        registry.governed(now).monitor == registry.monitor,
        registry.governed(now).slots.len() == registry.slots.len(),
        registry.governed(now).slots[k] == if registry.over_budget()
            && registry.slots[k].should_unload(now) {
            registry.slots[k].unloaded()
        } else {
            registry.slots[k]
        },
        !registry.slots[k].should_unload(now) ==> registry.governed(now).slots[k]
            == registry.slots[k],
        registry.slots[k].resident() && registry.slots[k].idle_for(now)
            <= registry.slots[k].idle_timeout ==> registry.governed(now).slots[k].resident(),
        !registry.over_budget() ==> registry.governed(now) == registry,
        registry.governed(now).resident_total() <= registry.resident_total(),
{
    lemma_total_after_eviction(registry.slots, now);
}

/// Registration puts a fresh slot under the identifier and touches no
/// other: the identifier is registered afterwards, its slot holds nothing
/// and contributes nothing, and every other identifier keeps its slot.
pub proof fn lemma_registration<H>(
    registry: RegistryView<H>,
    id: Seq<char>,
    slot: SlotView<H>,
    other: Seq<char>,
)
    requires
        registry.wf(),
        other != id,
    ensures
        registry.registered(id, slot).wf(),
        registry.registered(id, slot).contains(id),
        registry.registered(id, slot).slot(id) == slot,
        registry.registered(id, slot).contains(other) == registry.contains(other),
        registry.contains(other) ==> registry.registered(id, slot).slot(other) == registry.slot(
            other,
        ),
{
    let after = registry.registered(id, slot);
    if registry.contains(id) {
        let i = registry.index_of(id);
        assert(after.ids[i] == id);
    } else {
        assert(after.ids[registry.ids.len() as int] == id);
    }
    let j = after.index_of(id);
    if registry.contains(other) {
        let o = registry.index_of(other);
        assert(after.ids[o] == other);
        let o2 = after.index_of(other);
        assert(o2 == o);
    }
    if after.contains(other) {
        let o2 = after.index_of(other);
        assert(registry.ids[o2] == other);
    }
}

/// When nothing is suggested: under a mean load at or below the
/// threshold, and for an identifier that holds neither `medium` nor
/// `small`, whatever the load. Otherwise `medium` decides before `small`.
pub proof fn lemma_suggestion(window: CpuWindow, id: Seq<char>)
    ensures
        !window.mean_exceeds(DOWNGRADE_THRESHOLD) ==> suggestion_for(window, id) is None,
        !has_substring(id, "medium"@) && !has_substring(id, "small"@) ==> suggestion_for(
            window,
            id,
        ) is None,
        window.mean_exceeds(DOWNGRADE_THRESHOLD) && has_substring(id, "medium"@)
            ==> suggestion_for(window, id) == Some("small"@),
        window.mean_exceeds(DOWNGRADE_THRESHOLD) && !has_substring(id, "medium"@)
            && has_substring(id, "small"@) ==> suggestion_for(window, id) == Some("tiny"@),
{
}

/// Replacing the slot of a registered identifier changes that slot and no
/// other.
pub proof fn lemma_with_slot<H>(
    registry: RegistryView<H>,
    id: Seq<char>,
    slot: SlotView<H>,
    other: Seq<char>,
)
    requires
        registry.wf(),
        registry.contains(id),
    ensures
        registry.with_slot(id, slot).wf(),
        registry.with_slot(id, slot).ids == registry.ids,
        registry.with_slot(id, slot).contains(other) == registry.contains(other),
        registry.with_slot(id, slot).slot(id) == slot,
        other != id && registry.contains(other) ==> registry.with_slot(id, slot).slot(other)
            == registry.slot(other),
{
    let after = registry.with_slot(id, slot);
    let i = registry.index_of(id);
    assert(after.ids[i] == id);
    assert(after.index_of(id) == i);
    if other != id && registry.contains(other) {
        let o = registry.index_of(other);
        assert(after.ids[o] == other);
        assert(after.index_of(other) == o);
    }
}

/// A request for a registered model whose engine then fails to come up
/// leaves the model unloaded: its slot holds no handle, contributes
/// nothing, and asks for a load again at the next request.
pub proof fn lemma_failed_load_leaves_unloaded<H>(registry: RegistryView<H>, id: Seq<char>, now: u64)
    requires
        registry.wf(),
        registry.contains(id),
        registry.governed(now).slot(id).load_step() == LoadStep::Load,
    ensures
        ({
            let governed = registry.governed(now);
            let opened = governed.with_slot(id, governed.slot(id).requested(now));
            let failed = opened.with_slot(id, opened.slot(id).load_abandoned());
            &&& failed.wf()
            &&& failed.ids == registry.ids
            &&& !failed.slot(id).resident()
            &&& failed.slot(id).memory_usage() == 0
            &&& failed.slot(id).load_step() == LoadStep::Load
            &&& failed.slot(id).last_used == now
        }),
{
    let governed = registry.governed(now);
    let opened = governed.with_slot(id, governed.slot(id).requested(now));
    assert(governed.contains(id)) by {
        let i = registry.index_of(id);
        assert(governed.ids[i] == id);
    }
    lemma_with_slot(governed, id, governed.slot(id).requested(now), id);
    lemma_with_slot(opened, id, opened.slot(id).load_abandoned(), id);
}

} // verus!
