use vstd::prelude::*;
use crate::state::data_types::{
    AppStateUpdate, CpuData, GpuData, MemoryData, MetricKind, NetworkData, ProcessInfo,
    SystemStatsData,
};

verus! {

/// The consolidated snapshot: for each kind of metric the latest sample, or
/// nothing while none has arrived.
#[derive(Debug, Clone, PartialEq, Eq)]
pub struct AppState {
    pub cpu: Option<CpuData>,
    pub processes: Option<Vec<ProcessInfo>>,
    pub memory: Option<MemoryData>,
    pub network: Option<NetworkData>,
    pub gpu: Option<GpuData>,
    pub system_stats: Option<SystemStatsData>,
}

impl AppState {
    /// The snapshot in which no kind has a sample.
    pub open spec fn empty() -> AppState {
        AppState {
            cpu: None,
            processes: None,
            memory: None,
            network: None,
            gpu: None,
            system_stats: None,
        }
    }

    /// What the slot of `kind` holds, as the update that would have put it there.
    pub open spec fn latest(self, kind: MetricKind) -> Option<AppStateUpdate> {
        match kind {
            MetricKind::Cpu => match self.cpu {
                Some(data) => Some(AppStateUpdate::Cpu(data)),
                None => None,
            },
            MetricKind::Processes => match self.processes {
                Some(data) => Some(AppStateUpdate::Processes(data)),
                None => None,
            },
            MetricKind::Memory => match self.memory {
                Some(data) => Some(AppStateUpdate::Memory(data)),
                None => None,
            },
            MetricKind::Network => match self.network {
                Some(data) => Some(AppStateUpdate::Network(data)),
                None => None,
            },
            MetricKind::Gpu => match self.gpu {
                Some(data) => Some(AppStateUpdate::Gpu(data)),
                None => None,
            },
            MetricKind::SystemStats => match self.system_stats {
                Some(data) => Some(AppStateUpdate::SystemStats(data)),
                None => None,
            },
        }
    }

    /// The snapshot after one update: the slot of the update's kind holds its
    /// payload, every other slot is as before.
    pub open spec fn applied(self, update: AppStateUpdate) -> AppState {
        match update {
            AppStateUpdate::Cpu(data) => AppState { cpu: Some(data), ..self },
            AppStateUpdate::Processes(data) => AppState { processes: Some(data), ..self },
            AppStateUpdate::Memory(data) => AppState { memory: Some(data), ..self },
            AppStateUpdate::Network(data) => AppState { network: Some(data), ..self },
            AppStateUpdate::Gpu(data) => AppState { gpu: Some(data), ..self },
            AppStateUpdate::SystemStats(data) => AppState { system_stats: Some(data), ..self },
        }
    }

    /// The snapshot after a run of updates, applied in order of arrival.
    pub open spec fn applied_all(self, updates: Seq<AppStateUpdate>) -> AppState
        decreases updates.len(),
    {
        if updates.len() == 0 {
            self
        } else {
            self.applied_all(updates.drop_last()).applied(updates.last())
        }
    }

    /// An empty snapshot.
    pub fn new() -> (state: AppState)
        ensures
            state == AppState::empty(),
            forall|kind: MetricKind| state.latest(kind) is None,
    {
        AppState {
            cpu: None,
            processes: None,
            memory: None,
            network: None,
            gpu: None,
            system_stats: None,
        }
    }

    /// Whether a sample of `kind` has arrived.
    pub fn has(&self, kind: MetricKind) -> (present: bool)
        ensures
            present == self.latest(kind) is Some,
    {
        match kind {
            MetricKind::Cpu => self.cpu.is_some(),
            MetricKind::Processes => self.processes.is_some(),
            MetricKind::Memory => self.memory.is_some(),
            MetricKind::Network => self.network.is_some(),
            MetricKind::Gpu => self.gpu.is_some(),
            MetricKind::SystemStats => self.system_stats.is_some(),
        }
    }

    /// Overwrites the one slot that matches the update's tag.
    pub fn apply(&mut self, update: AppStateUpdate)
        ensures
            *final(self) == old(self).applied(update),
            final(self).latest(update.kind_spec()) == Some(update),
            forall|kind: MetricKind|
                kind != update.kind_spec() ==> final(self).latest(kind) == old(self).latest(kind),
    {
        match update {
            AppStateUpdate::Cpu(data) => {
                self.cpu = Some(data);
            },
            AppStateUpdate::Processes(data) => {
                self.processes = Some(data);
            },
            AppStateUpdate::Memory(data) => {
                self.memory = Some(data);
            },
            AppStateUpdate::Network(data) => {
                self.network = Some(data);
            },
            AppStateUpdate::Gpu(data) => {
                self.gpu = Some(data);
            },
            AppStateUpdate::SystemStats(data) => {
                self.system_stats = Some(data);
            },
        }
    }

    /// Applies a batch of updates in order of arrival.
    pub fn apply_all(&mut self, updates: Vec<AppStateUpdate>)
        ensures
            *final(self) == old(self).applied_all(updates@),
    {
        let ghost all = updates@;
        let ghost start = *self;
        for update in it: updates.into_iter()
            invariant
                it.seq() == all,
                *self == start.applied_all(all.take(it.index() as int)),
        {
            proof {
                assert(all.take(it.index() + 1).drop_last() =~= all.take(it.index() as int));
            }
            self.apply(update);
        }
        proof {
            assert(all.take(all.len() as int) =~= all);
        }
    }
}

impl Default for AppState {
    fn default() -> (state: AppState)
        ensures
            state == AppState::empty(),
    {
        AppState::new()
    }
}

/// Applying an update fills the slot of its kind with exactly that update and
/// leaves every other slot as it was.
pub proof fn lemma_apply_touches_one_slot(state: AppState, update: AppStateUpdate, kind: MetricKind)
    ensures
        kind == update.kind_spec() ==> state.applied(update).latest(kind) == Some(update),
        kind != update.kind_spec() ==> state.applied(update).latest(kind) == state.latest(kind),
{
}

/// Applying the same update a second time changes nothing.
pub proof fn lemma_apply_idempotent(state: AppState, update: AppStateUpdate)
    ensures
        state.applied(update).applied(update) == state.applied(update),
{
}

/// A slot that holds a sample still holds one after any run of updates: no
/// update empties a slot.
pub proof fn lemma_present_stays_present(
    state: AppState,
    updates: Seq<AppStateUpdate>,
    kind: MetricKind,
)
    requires
        state.latest(kind) is Some,
    ensures
        state.applied_all(updates).latest(kind) is Some,
    decreases updates.len(),
{
    if updates.len() > 0 {
        lemma_present_stays_present(state, updates.drop_last(), kind);
    }
}

/// Once an update of some kind is part of a run, the slot of that kind holds
/// a sample at the end of the run, whatever the snapshot was before.
pub proof fn lemma_published_is_present(state: AppState, updates: Seq<AppStateUpdate>, at: int)
    requires
        0 <= at < updates.len(),
    ensures
        state.applied_all(updates).latest(updates[at].kind_spec()) is Some,
    decreases updates.len(),
{
    if at < updates.len() - 1 {
        lemma_published_is_present(state, updates.drop_last(), at);
        let before = state.applied_all(updates.drop_last());
        lemma_apply_touches_one_slot(before, updates.last(), updates[at].kind_spec());
    }
}

/// A run of updates that holds none of a kind leaves that kind's slot as it was.
pub proof fn lemma_other_kinds_do_not_interfere(
    state: AppState,
    updates: Seq<AppStateUpdate>,
    kind: MetricKind,
)
    requires
        forall|i: int| 0 <= i < updates.len() ==> (#[trigger] updates[i]).kind_spec() != kind,
    ensures
        state.applied_all(updates).latest(kind) == state.latest(kind),
    decreases updates.len(),
{
    if updates.len() > 0 {
        lemma_other_kinds_do_not_interfere(state, updates.drop_last(), kind);
    }
}

/// Last writer wins: after a run of updates, the slot of a kind holds the last
/// update of that kind in the run, whatever updates of other kinds stand
/// before, between or after.
pub proof fn lemma_last_update_wins(state: AppState, updates: Seq<AppStateUpdate>, last: int)
    requires
        0 <= last < updates.len(),
        forall|j: int|
            last < j < updates.len() ==> (#[trigger] updates[j]).kind_spec()
                != updates[last].kind_spec(),
    ensures
        state.applied_all(updates).latest(updates[last].kind_spec()) == Some(updates[last]),
    decreases updates.len(),
{
    if last < updates.len() - 1 {
        lemma_last_update_wins(state, updates.drop_last(), last);
    }
}

} // verus!
