use vstd::prelude::*;
use crate::state::app_state::AppState;
use crate::state::data_types::AppStateUpdate;

verus! {

/// What the aggregating thread has to do next.
#[derive(Debug, Clone, Copy, PartialEq, Eq)]
pub enum AggregatorAction {
    /// Read the shared shutdown flag.
    CheckShutdown,
    /// Wait on the funnel for the next update.
    Receive,
    /// Leave the loop.
    Exit,
}

/// What came of the action the aggregator asked for.
#[derive(Debug, Clone, PartialEq, Eq)]
pub enum AggregatorEvent {
    /// The shutdown flag was read and held this value.
    Shutdown(bool),
    /// The funnel delivered this update.
    Received(AppStateUpdate),
    /// The funnel gave nothing: every sender is gone.
    Disconnected,
}

/// The aggregator: the decisions of the consumer loop, sole writer of the
/// consolidated state. The flag is read once before every receive attempt.
#[derive(Debug, Clone, PartialEq, Eq)]
pub struct AppCore {
    pub state: AppState,
    pub pending: AggregatorAction,
}

impl AppCore {
    /// The aggregator before anything has arrived.
    pub open spec fn initial() -> AppCore {
        AppCore { state: AppState::empty(), pending: AggregatorAction::CheckShutdown }
    }

    /// The aggregator after `event`. Only an update that was received while
    /// one was awaited changes the state; an event that does not answer the
    /// pending action changes nothing.
    pub open spec fn next(self, event: AggregatorEvent) -> AppCore {
        match (self.pending, event) {
            (AggregatorAction::CheckShutdown, AggregatorEvent::Shutdown(true)) => AppCore {
                state: self.state,
                pending: AggregatorAction::Exit,
            },
            (AggregatorAction::CheckShutdown, AggregatorEvent::Shutdown(false)) => AppCore {
                state: self.state,
                pending: AggregatorAction::Receive,
            },
            (AggregatorAction::Receive, AggregatorEvent::Received(update)) => AppCore {
                state: self.state.applied(update),
                pending: AggregatorAction::CheckShutdown,
            },
            (AggregatorAction::Receive, AggregatorEvent::Disconnected) => AppCore {
                state: self.state,
                pending: AggregatorAction::CheckShutdown,
            },
            _ => self,
        }
    }

    /// The aggregator after a run of events, taken in order.
    pub open spec fn after(self, events: Seq<AggregatorEvent>) -> AppCore
        decreases events.len(),
    {
        if events.len() == 0 {
            self
        } else {
            self.next(events[0]).after(events.skip(1))
        }
    }

    /// The updates of a run that reach the state, in order: those received
    /// while a receive was pending.
    pub open spec fn accepted(self, events: Seq<AggregatorEvent>) -> Seq<AppStateUpdate>
        decreases events.len(),
    {
        if events.len() == 0 {
            Seq::empty()
        } else {
            let rest = self.next(events[0]).accepted(events.skip(1));
            match (self.pending, events[0]) {
                (AggregatorAction::Receive, AggregatorEvent::Received(update)) => seq![update]
                    + rest,
                _ => rest,
            }
        }
    }

    /// An aggregator over an empty state, about to read the flag.
    pub fn new() -> (this: AppCore)
        ensures
            this == AppCore::initial(),
    {
        AppCore { state: AppState::new(), pending: AggregatorAction::CheckShutdown }
    }

    /// Takes in the outcome of the pending action and returns the next one.
    pub fn step(&mut self, event: AggregatorEvent) -> (action: AggregatorAction)
        ensures
            *final(self) == old(self).next(event),
            action == final(self).pending,
    {
        match (self.pending, event) {
            (AggregatorAction::CheckShutdown, AggregatorEvent::Shutdown(flag)) => {
                if flag {
                    self.pending = AggregatorAction::Exit;
                } else {
                    self.pending = AggregatorAction::Receive;
                }
            },
            (AggregatorAction::Receive, AggregatorEvent::Received(update)) => {
                self.state.apply(update);
                self.pending = AggregatorAction::CheckShutdown;
            },
            (AggregatorAction::Receive, AggregatorEvent::Disconnected) => {
                self.pending = AggregatorAction::CheckShutdown;
            },
            _ => {},
        }
        self.pending
    }

    /// Takes in a run of events in order and returns the action pending
    /// after the last.
    pub fn run(&mut self, events: Vec<AggregatorEvent>) -> (action: AggregatorAction)
        ensures
            *final(self) == old(self).after(events@),
            action == final(self).pending,
    {
        let ghost all = events@;
        let ghost start = *self;
        proof {
            assert(all.skip(0) =~= all);
        }
        for event in it: events.into_iter()
            invariant
                it.seq() == all,
                self.after(all.skip(it.index() as int)) == start.after(all),
        {
            proof {
                let rest = all.skip(it.index() as int);
                assert(rest[0] == event);
                assert(rest.skip(1) =~= all.skip(it.index() + 1));
            }
            self.step(event);
        }
        proof {
            assert(all.skip(all.len() as int) =~= Seq::<AggregatorEvent>::empty());
        }
        self.pending
    }
}

/// The state after a run of events is the state before with the accepted
/// updates applied in order of arrival: nothing else ever writes a slot.
pub proof fn lemma_state_is_accepted_updates(start: AppCore, events: Seq<AggregatorEvent>)
    ensures
        start.after(events).state == start.state.applied_all(start.accepted(events)),
    decreases events.len(),
{
    if events.len() == 0 {
        assert(start.accepted(events) =~= Seq::empty());
    } else {
        let after = start.next(events[0]);
        let rest = events.skip(1);
        lemma_state_is_accepted_updates(after, rest);
        match (start.pending, events[0]) {
            (AggregatorAction::Receive, AggregatorEvent::Received(update)) => {
                lemma_applied_all_after_first(start.state, update, after.accepted(rest));
            },
            _ => {},
        }
    }
}

/// Applying one update and then a run is applying the run with that update in front.
pub proof fn lemma_applied_all_after_first(
    state: AppState,
    first: AppStateUpdate,
    rest: Seq<AppStateUpdate>,
)
    ensures
        state.applied(first).applied_all(rest) == state.applied_all(seq![first] + rest),
    decreases rest.len(),
{
    let whole = seq![first] + rest;
    if rest.len() == 0 {
        assert(whole.drop_last() =~= Seq::<AppStateUpdate>::empty());
        assert(state.applied_all(whole.drop_last()) == state);
    } else {
        lemma_applied_all_after_first(state, first, rest.drop_last());
        assert(whole.drop_last() =~= seq![first] + rest.drop_last());
        assert(whole.last() == rest.last());
    }
}

/// Once the flag is set the aggregator leaves within two events: at most one
/// receive attempt is finished, then the flag is read and the loop ends.
pub proof fn lemma_aggregator_stops_after_shutdown(
    start: AppCore,
    first: AggregatorEvent,
    second: AggregatorEvent,
)
    requires
        start.pending == AggregatorAction::Receive ==> (first is Received || first is Disconnected),
        start.pending == AggregatorAction::CheckShutdown ==> first == AggregatorEvent::Shutdown(
            true,
        ),
        second == AggregatorEvent::Shutdown(true),
    ensures
        start.next(first).next(second).pending == AggregatorAction::Exit,
{
}

/// Once the loop has ended, the state is final.
pub proof fn lemma_exit_is_final(start: AppCore, events: Seq<AggregatorEvent>)
    requires
        start.pending == AggregatorAction::Exit,
    ensures
        start.after(events) == start,
    decreases events.len(),
{
    if events.len() > 0 {
        lemma_exit_is_final(start.next(events[0]), events.skip(1));
    }
}

} // verus!
