use vstd::prelude::*;
use crate::state::data_types::{
    AppStateUpdate, CpuData, GpuData, MemoryData, MetricKind, NetworkData, ProcessInfo,
    SystemStatsData,
};

verus! {

/// A collector's sample that knows the tag under which it travels to the
/// aggregator. Each sample type has exactly one tag.
pub trait Tagged: Sized {
    /// The kind of metric every sample of this type belongs to.
    spec fn kind() -> MetricKind;

    /// The sample wrapped into its tagged update.
    spec fn tagged(self) -> AppStateUpdate;

    /// Wraps the sample into its tagged update.
    fn into_update(self) -> (update: AppStateUpdate)
        ensures
            update == self.tagged(),
            update.kind_spec() == Self::kind(),
    ;
}

impl Tagged for CpuData {
    open spec fn kind() -> MetricKind {
        MetricKind::Cpu
    }

    open spec fn tagged(self) -> AppStateUpdate {
        AppStateUpdate::Cpu(self)
    }

    fn into_update(self) -> (update: AppStateUpdate) {
        AppStateUpdate::Cpu(self)
    }
}

impl Tagged for Vec<ProcessInfo> {
    open spec fn kind() -> MetricKind {
        MetricKind::Processes
    }

    open spec fn tagged(self) -> AppStateUpdate {
        AppStateUpdate::Processes(self)
    }

    fn into_update(self) -> (update: AppStateUpdate) {
        AppStateUpdate::Processes(self)
    }
}

impl Tagged for MemoryData {
    open spec fn kind() -> MetricKind {
        MetricKind::Memory
    }

    open spec fn tagged(self) -> AppStateUpdate {
        AppStateUpdate::Memory(self)
    }

    fn into_update(self) -> (update: AppStateUpdate) {
        AppStateUpdate::Memory(self)
    }
}

impl Tagged for NetworkData {
    open spec fn kind() -> MetricKind {
        MetricKind::Network
    }

    open spec fn tagged(self) -> AppStateUpdate {
        AppStateUpdate::Network(self)
    }

    fn into_update(self) -> (update: AppStateUpdate) {
        AppStateUpdate::Network(self)
    }
}

impl Tagged for GpuData {
    open spec fn kind() -> MetricKind {
        MetricKind::Gpu
    }

    open spec fn tagged(self) -> AppStateUpdate {
        AppStateUpdate::Gpu(self)
    }

    fn into_update(self) -> (update: AppStateUpdate) {
        AppStateUpdate::Gpu(self)
    }
}

impl Tagged for SystemStatsData {
    open spec fn kind() -> MetricKind {
        MetricKind::SystemStats
    }

    open spec fn tagged(self) -> AppStateUpdate {
        AppStateUpdate::SystemStats(self)
    }

    fn into_update(self) -> (update: AppStateUpdate) {
        AppStateUpdate::SystemStats(self)
    }
}

/// Where a relay stands.
#[derive(Debug, Clone, Copy, PartialEq, Eq)]
pub enum RelayState {
    /// Waiting on the collector's own channel.
    Receiving,
    /// Handing one update to the funnel.
    Forwarding,
    Stopped,
}

/// What the relaying thread has to do next.
#[derive(Debug, Clone, PartialEq, Eq)]
pub enum RelayAction {
    /// Wait for the collector's next sample.
    Receive,
    /// Push this update onto the funnel.
    Forward(AppStateUpdate),
    /// Leave the loop.
    Exit,
}

/// What came of the action the relay asked for.
#[derive(Debug)]
pub enum RelayEvent<T> {
    /// The collector's channel delivered this sample.
    Received(T),
    /// The collector's channel is closed: its polling loop has stopped.
    SourceClosed,
    /// A forward was attempted; `false` if the funnel's receiving end is gone.
    Forwarded(bool),
}

/// The decisions of one relay between a collector's channel and the funnel.
#[derive(Debug, Clone, Copy, PartialEq, Eq)]
pub struct Relay {
    pub state: RelayState,
}

impl Relay {
    /// Whether `event` is an outcome of what the relay waits for.
    pub open spec fn answered_by<T>(self, event: RelayEvent<T>) -> bool {
        match (self.state, event) {
            (RelayState::Receiving, RelayEvent::Received(_)) => true,
            (RelayState::Receiving, RelayEvent::SourceClosed) => true,
            (RelayState::Forwarding, RelayEvent::Forwarded(_)) => true,
            _ => false,
        }
    }

    /// The relay after `event`. An event that answers nothing changes nothing.
    pub open spec fn next<T>(self, event: RelayEvent<T>) -> Relay {
        match (self.state, event) {
            (RelayState::Receiving, RelayEvent::Received(_)) => Relay {
                state: RelayState::Forwarding,
            },
            (RelayState::Receiving, RelayEvent::SourceClosed) => Relay {
                state: RelayState::Stopped,
            },
            (RelayState::Forwarding, RelayEvent::Forwarded(true)) => Relay {
                state: RelayState::Receiving,
            },
            (RelayState::Forwarding, RelayEvent::Forwarded(false)) => Relay {
                state: RelayState::Stopped,
            },
            _ => self,
        }
    }

    /// What the relay asks for in answer to `event`, or nothing where the
    /// event answers nothing. Every sample received is forwarded, under its
    /// tag, before the next is taken.
    pub open spec fn asks<T: Tagged>(self, event: RelayEvent<T>) -> Option<RelayAction> {
        match (self.state, event) {
            (RelayState::Receiving, RelayEvent::Received(sample)) => Some(
                RelayAction::Forward(sample.tagged()),
            ),
            (RelayState::Receiving, RelayEvent::SourceClosed) => Some(RelayAction::Exit),
            (RelayState::Forwarding, RelayEvent::Forwarded(true)) => Some(RelayAction::Receive),
            (RelayState::Forwarding, RelayEvent::Forwarded(false)) => Some(RelayAction::Exit),
            _ => None,
        }
    }

    /// The samples of a run that the relay takes in, in order.
    pub open spec fn taken<T>(self, events: Seq<RelayEvent<T>>) -> Seq<T>
        decreases events.len(),
    {
        if events.len() == 0 {
            Seq::empty()
        } else {
            let rest = self.next(events[0]).taken(events.skip(1));
            match (self.state, events[0]) {
                (RelayState::Receiving, RelayEvent::Received(sample)) => seq![sample] + rest,
                _ => rest,
            }
        }
    }

    /// The updates the relay asks to forward over a run, in order.
    pub open spec fn forwarded<T: Tagged>(self, events: Seq<RelayEvent<T>>) -> Seq<AppStateUpdate>
        decreases events.len(),
    {
        if events.len() == 0 {
            Seq::empty()
        } else {
            let rest = self.next(events[0]).forwarded(events.skip(1));
            match self.asks(events[0]) {
                Some(RelayAction::Forward(update)) => seq![update] + rest,
                _ => rest,
            }
        }
    }

    /// A relay that waits for its first sample.
    pub fn new() -> (this: Relay)
        ensures
            this.state == RelayState::Receiving,
    {
        Relay { state: RelayState::Receiving }
    }

    /// Whether the relay has ended.
    pub fn is_stopped(&self) -> (stopped: bool)
        ensures
            stopped == (self.state == RelayState::Stopped),
    {
        match self.state {
            RelayState::Stopped => true,
            _ => false,
        }
    }

    /// Takes in an event and returns what to do next, or nothing where the
    /// event does not answer what the relay waits for.
    pub fn step<T: Tagged>(&mut self, event: RelayEvent<T>) -> (action: Option<RelayAction>)
        ensures
            *final(self) == old(self).next(event),
            action == old(self).asks(event),
            action is Some <==> old(self).answered_by(event),
    {
        match (self.state, event) {
            (RelayState::Receiving, RelayEvent::Received(sample)) => {
                self.state = RelayState::Forwarding;
                Some(RelayAction::Forward(sample.into_update()))
            },
            (RelayState::Receiving, RelayEvent::SourceClosed) => {
                self.state = RelayState::Stopped;
                Some(RelayAction::Exit)
            },
            (RelayState::Forwarding, RelayEvent::Forwarded(delivered)) => {
                if delivered {
                    self.state = RelayState::Receiving;
                    Some(RelayAction::Receive)
                } else {
                    self.state = RelayState::Stopped;
                    Some(RelayAction::Exit)
                }
            },
            _ => None,
        }
    }
}

/// A relay neither drops nor reorders: over any run of events, what it asks
/// to forward is what it took in, each sample under its tag, in arrival order.
pub proof fn lemma_relay_keeps_order<T: Tagged>(start: Relay, events: Seq<RelayEvent<T>>)
    ensures
        start.forwarded(events) == start.taken(events).map_values(|sample: T| sample.tagged()),
    decreases events.len(),
{
    let tag = |sample: T| sample.tagged();
    if events.len() == 0 {
        assert(start.forwarded(events) =~= start.taken(events).map_values(tag));
    } else {
        let after = start.next(events[0]);
        let rest = events.skip(1);
        lemma_relay_keeps_order(after, rest);
        assert(start.forwarded(events) =~= start.taken(events).map_values(tag));
    }
}

/// A stopped relay stays stopped and forwards nothing more.
pub proof fn lemma_stopped_relay_is_silent<T: Tagged>(start: Relay, events: Seq<RelayEvent<T>>)
    requires
        start.state == RelayState::Stopped,
    ensures
        start.forwarded(events) == Seq::<AppStateUpdate>::empty(),
    decreases events.len(),
{
    if events.len() > 0 {
        lemma_stopped_relay_is_silent(start.next(events[0]), events.skip(1));
    }
}

} // verus!
