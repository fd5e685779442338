use vstd::prelude::*;

verus! {

/// Where a polling loop stands.
#[derive(Debug, Clone, Copy, PartialEq, Eq)]
pub enum PollState {
    Starting,
    Sampling,
    Publishing,
    Sleeping,
    Stopped,
}

/// What the thread that drives a polling loop has to do next.
#[derive(Debug, Clone, Copy, PartialEq, Eq)]
pub enum PollAction {
    /// Read the shared shutdown flag.
    CheckShutdown,
    /// Take one sample, throw it away, and wait the collector's minimum interval.
    WarmUp,
    /// Take one sample.
    Sample,
    /// Push the sample just taken onto the collector's channel.
    Publish,
    /// Sleep for this many milliseconds.
    Sleep(u64),
    /// Leave the loop.
    Exit,
}

/// What came of the action the loop asked for.
#[derive(Debug, Clone, Copy, PartialEq, Eq)]
pub enum PollEvent {
    /// The shutdown flag was read and held this value.
    Shutdown(bool),
    /// The throwaway sample was taken and the minimum interval has passed.
    WarmedUp,
    /// A sample was attempted; `true` if it succeeded.
    Sampled(bool),
    /// A publish was attempted; `false` if the receiving end is gone.
    Published(bool),
    /// The sleep is over.
    Slept,
}

/// The decisions of one collector's polling loop. The driving thread performs
/// `pending`, reports the outcome to `step`, and gets the next action back.
#[derive(Debug, Clone, Copy, PartialEq, Eq)]
pub struct PollingLoop {
    pub state: PollState,
    pub pending: PollAction,
    /// Whether the collector is ready to give meaningful samples.
    pub primed: bool,
    pub interval_ms: u64,
}

impl PollingLoop {
    /// The loop before anything has happened.
    pub open spec fn initial(interval_ms: u64, needs_warm_up: bool) -> PollingLoop {
        PollingLoop {
            state: PollState::Starting,
            pending: PollAction::CheckShutdown,
            primed: !needs_warm_up,
            interval_ms,
        }
    }

    /// State and pending action fit together, and no sample is asked of a
    /// collector that still needs its warm-up.
    pub open spec fn wf(self) -> bool {
        match self.state {
            PollState::Starting => (self.pending == PollAction::CheckShutdown || (self.pending
                == PollAction::WarmUp && !self.primed)),
            PollState::Sampling => self.pending == PollAction::Sample && self.primed,
            PollState::Publishing => self.pending == PollAction::Publish && self.primed,
            PollState::Sleeping => (self.pending == PollAction::CheckShutdown || self.pending
                == PollAction::Sleep(self.interval_ms)) && self.primed,
            PollState::Stopped => self.pending == PollAction::Exit,
        }
    }

    /// Whether `event` is an outcome of the pending action.
    pub open spec fn answered_by(self, event: PollEvent) -> bool {
        match (self.pending, event) {
            (PollAction::CheckShutdown, PollEvent::Shutdown(_)) => true,
            (PollAction::WarmUp, PollEvent::WarmedUp) => true,
            (PollAction::Sample, PollEvent::Sampled(_)) => true,
            (PollAction::Publish, PollEvent::Published(_)) => true,
            (PollAction::Sleep(_), PollEvent::Slept) => true,
            _ => false,
        }
    }

    /// The same loop in another state, with another action pending.
    pub open spec fn moved(self, state: PollState, pending: PollAction) -> PollingLoop {
        PollingLoop { state, pending, ..self }
    }

    /// The loop after `event`. An event that does not answer the pending
    /// action changes nothing.
    pub open spec fn next(self, event: PollEvent) -> PollingLoop {
        match (self.pending, event) {
            (PollAction::CheckShutdown, PollEvent::Shutdown(true)) => self.moved(
                PollState::Stopped,
                PollAction::Exit,
            ),
            (PollAction::CheckShutdown, PollEvent::Shutdown(false)) => if self.primed {
                self.moved(PollState::Sampling, PollAction::Sample)
            } else {
                self.moved(PollState::Starting, PollAction::WarmUp)
            },
            (PollAction::WarmUp, PollEvent::WarmedUp) => PollingLoop {
                state: PollState::Sampling,
                pending: PollAction::Sample,
                primed: true,
                interval_ms: self.interval_ms,
            },
            (PollAction::Sample, PollEvent::Sampled(true)) => self.moved(
                PollState::Publishing,
                PollAction::Publish,
            ),
            (PollAction::Sample, PollEvent::Sampled(false)) => self.moved(
                PollState::Sleeping,
                PollAction::Sleep(self.interval_ms),
            ),
            (PollAction::Publish, PollEvent::Published(true)) => self.moved(
                PollState::Sleeping,
                PollAction::Sleep(self.interval_ms),
            ),
            (PollAction::Publish, PollEvent::Published(false)) => self.moved(
                PollState::Stopped,
                PollAction::Exit,
            ),
            (PollAction::Sleep(_), PollEvent::Slept) => self.moved(
                PollState::Sleeping,
                PollAction::CheckShutdown,
            ),
            _ => self,
        }
    }

    /// The loop after a run of events, taken in order.
    pub open spec fn run(self, events: Seq<PollEvent>) -> PollingLoop
        decreases events.len(),
    {
        if events.len() == 0 {
            self
        } else {
            self.next(events[0]).run(events.skip(1))
        }
    }

    /// How many throwaway samples the loop asks for over a run of events.
    pub open spec fn warm_ups(self, events: Seq<PollEvent>) -> nat
        decreases events.len(),
    {
        if events.len() == 0 {
            0
        } else {
            let after = self.next(events[0]);
            let asked: nat = if after.pending == PollAction::WarmUp && after != self {
                1
            } else {
                0
            };
            asked + after.warm_ups(events.skip(1))
        }
    }

    /// How many samples the loop asks for over a run of events.
    pub open spec fn samples_asked(self, events: Seq<PollEvent>) -> nat
        decreases events.len(),
    {
        if events.len() == 0 {
            0
        } else {
            let after = self.next(events[0]);
            let asked: nat = if after.pending == PollAction::Sample && after != self {
                1
            } else {
                0
            };
            asked + after.samples_asked(events.skip(1))
        }
    }

    /// How many sleeps the loop asks for over a run of events.
    pub open spec fn sleeps_asked(self, events: Seq<PollEvent>) -> nat
        decreases events.len(),
    {
        if events.len() == 0 {
            0
        } else {
            let after = self.next(events[0]);
            let asked: nat = if after.pending is Sleep && after != self {
                1
            } else {
                0
            };
            asked + after.sleeps_asked(events.skip(1))
        }
    }

    /// Until the loop has ended, every event of the run answers the action
    /// pending when it comes, and every reading of the shutdown flag finds it
    /// set.
    pub open spec fn shutting_down(self, events: Seq<PollEvent>) -> bool
        decreases events.len(),
    {
        events.len() == 0 || self.pending == PollAction::Exit || (self.answered_by(events[0])
            && events[0] != PollEvent::Shutdown(false) && self.next(events[0]).shutting_down(
            events.skip(1),
        ))
    }

    /// The most events a loop can still take in before it stops, once the
    /// shutdown flag is set.
    pub open spec fn steps_to_stop(self) -> nat {
        match self.pending {
            PollAction::Exit => 0,
            PollAction::CheckShutdown => 1,
            PollAction::Sleep(_) => 2,
            PollAction::Publish => 3,
            PollAction::Sample => 4,
            PollAction::WarmUp => 5,
        }
    }

    /// A loop that sleeps `interval_ms` between samples. With `needs_warm_up`
    /// it asks for one throwaway sample before the first real one.
    pub fn new(interval_ms: u64, needs_warm_up: bool) -> (this: PollingLoop)
        ensures
            this == PollingLoop::initial(interval_ms, needs_warm_up),
            this.wf(),
    {
        PollingLoop {
            state: PollState::Starting,
            pending: PollAction::CheckShutdown,
            primed: !needs_warm_up,
            interval_ms,
        }
    }

    /// Whether the loop has ended.
    pub fn is_stopped(&self) -> (stopped: bool)
        ensures
            stopped == (self.state == PollState::Stopped),
    {
        match self.state {
            PollState::Stopped => true,
            _ => false,
        }
    }

    fn move_to(&mut self, state: PollState, pending: PollAction)
        ensures
            *final(self) == old(self).moved(state, pending),
    {
        self.state = state;
        self.pending = pending;
    }

    /// Takes in the outcome of the pending action and returns the next one.
    pub fn step(&mut self, event: PollEvent) -> (action: PollAction)
        ensures
            *final(self) == old(self).next(event),
            action == final(self).pending,
            old(self).wf() ==> final(self).wf(),
    {
        match (self.pending, event) {
            (PollAction::CheckShutdown, PollEvent::Shutdown(flag)) => {
                if flag {
                    self.move_to(PollState::Stopped, PollAction::Exit);
                } else if self.primed {
                    self.move_to(PollState::Sampling, PollAction::Sample);
                } else {
                    self.move_to(PollState::Starting, PollAction::WarmUp);
                }
            },
            (PollAction::WarmUp, PollEvent::WarmedUp) => {
                self.primed = true;
                self.move_to(PollState::Sampling, PollAction::Sample);
            },
            (PollAction::Sample, PollEvent::Sampled(ok)) => {
                if ok {
                    self.move_to(PollState::Publishing, PollAction::Publish);
                } else {
                    self.move_to(PollState::Sleeping, PollAction::Sleep(self.interval_ms));
                }
            },
            (PollAction::Publish, PollEvent::Published(delivered)) => {
                if delivered {
                    self.move_to(PollState::Sleeping, PollAction::Sleep(self.interval_ms));
                } else {
                    self.move_to(PollState::Stopped, PollAction::Exit);
                }
            },
            (PollAction::Sleep(_), PollEvent::Slept) => {
                self.move_to(PollState::Sleeping, PollAction::CheckShutdown);
            },
            _ => {},
        }
        self.pending
    }
}

/// Every step keeps state and pending action in agreement.
pub proof fn lemma_run_keeps_wf(start: PollingLoop, events: Seq<PollEvent>)
    requires
        start.wf(),
    ensures
        start.run(events).wf(),
    decreases events.len(),
{
    if events.len() > 0 {
        lemma_run_keeps_wf(start.next(events[0]), events.skip(1));
    }
}

/// Once stopped, a loop stays stopped whatever it is told.
pub proof fn lemma_stopped_is_final(start: PollingLoop, events: Seq<PollEvent>)
    requires
        start.wf(),
        start.state == PollState::Stopped,
    ensures
        start.run(events) == start,
    decreases events.len(),
{
    if events.len() > 0 {
        lemma_stopped_is_final(start.next(events[0]), events.skip(1));
    }
}

/// A loop never asks for a second warm-up: over any run of events a loop that
/// is ready asks for none, and one that is not asks for at most one.
pub proof fn lemma_at_most_one_warm_up(start: PollingLoop, events: Seq<PollEvent>)
    requires
        start.wf(),
    ensures
        start.primed ==> start.warm_ups(events) == 0,
        start.pending == PollAction::WarmUp ==> start.warm_ups(events) == 0,
        start.warm_ups(events) <= 1,
    decreases events.len(),
{
    if events.len() > 0 {
        lemma_at_most_one_warm_up(start.next(events[0]), events.skip(1));
    }
}

/// Warm-up comes first: when a loop built to warm up asks for a sample or a
/// publish, or sleeps between samples, it has asked for exactly one throwaway
/// sample before.
pub proof fn lemma_one_warm_up_before_first_sample(interval_ms: u64, events: Seq<PollEvent>)
    ensures
        ({
            let start = PollingLoop::initial(interval_ms, true);
            let end = start.run(events);
            (end.pending == PollAction::Sample || end.pending == PollAction::Publish || end.state
                == PollState::Sleeping) ==> start.warm_ups(events) == 1
        }),
{
    let start = PollingLoop::initial(interval_ms, true);
    lemma_warm_ups_match_primed(start, events);
    lemma_run_keeps_wf(start, events);
}

/// For a loop that has not warmed up and has not yet asked to: whenever it
/// is ready, or waiting for its warm-up, at the end of a run, the run held
/// exactly one request for a throwaway sample.
pub proof fn lemma_warm_ups_match_primed(start: PollingLoop, events: Seq<PollEvent>)
    requires
        start.wf(),
        !start.primed,
        start.pending != PollAction::WarmUp,
    ensures
        start.run(events).primed ==> start.warm_ups(events) == 1,
        start.run(events).pending == PollAction::WarmUp ==> start.warm_ups(events) == 1,
    decreases events.len(),
{
    if events.len() > 0 {
        let after = start.next(events[0]);
        let rest = events.skip(1);
        if after.pending == PollAction::WarmUp {
            lemma_at_most_one_warm_up(after, rest);
        } else {
            lemma_warm_ups_match_primed(after, rest);
        }
    }
}

/// Shutdown bound: once the flag is set and the driving thread keeps
/// answering, the loop has stopped after as many events as `steps_to_stop`
/// gives, which is never more than five: at most one warm-up, one sample, one
/// publish, one sleep and one reading of the flag.
pub proof fn lemma_stops_after_shutdown(start: PollingLoop, events: Seq<PollEvent>)
    requires
        start.wf(),
        start.shutting_down(events),
        events.len() >= start.steps_to_stop(),
    ensures
        start.run(events).state == PollState::Stopped,
        start.steps_to_stop() <= 5,
    decreases events.len(),
{
    if events.len() > 0 {
        lemma_stops_after_shutdown(start.next(events[0]), events.skip(1));
    }
}

/// Once the flag is set, a loop finishes what is in flight and no more: it
/// asks for at most one more sleep, and for no further sample unless its
/// warm-up was still pending, in which case for one.
pub proof fn lemma_shutdown_finishes_one_round(start: PollingLoop, events: Seq<PollEvent>)
    requires
        start.wf(),
        start.shutting_down(events),
    ensures
        start.sleeps_asked(events) <= 1,
        start.samples_asked(events) <= 1,
        start.pending != PollAction::WarmUp ==> start.samples_asked(events) == 0,
        (start.pending == PollAction::CheckShutdown || start.pending is Sleep || start.pending
            == PollAction::Exit) ==> start.sleeps_asked(events) == 0,
    decreases events.len(),
{
    if events.len() > 0 {
        lemma_shutdown_finishes_one_round(start.next(events[0]), events.skip(1));
    }
}

} // verus!
