//! The poller: the decision taken at each timer tick, with the
//! single-flight guard that keeps at most one run cycle in flight.
//!
//! The timer itself, the fetch and the dispatch are I/O and stay with the
//! caller; every decision the caller acts on comes from here.

use vstd::prelude::*;

verus! {

/// What a poll tick decides.
#[derive(PartialEq, Eq, Structural, Clone, Copy, Debug)]
pub enum TickAction {
    /// A cycle is still in flight: dispatch nothing, probe nothing.
    SkipBusy,
    /// The one-shot forced-run request was consumed: dispatch a cycle
    /// without probing the upstream.
    RunForced,
    /// Nothing is in flight and no run is forced: probe the upstream.
    Probe,
}

/// What probing the upstream found.
#[derive(PartialEq, Eq, Structural, Clone, Copy, Debug)]
pub enum Detection {
    /// The upstream holds commits the checkout lacks.
    Changed,
    /// Local and upstream hashes are equal.
    Unchanged,
    /// The fetch or a hash lookup failed; logged, never escalated.
    FetchFailed,
}

/// The poller's state between ticks.
pub struct Poller {
    /// Whether a run cycle is in flight: the single-flight guard.
    pub busy: bool,
    /// Whether the one-shot forced-run request is still pending.
    pub run_now: bool,
}

/// What a tick decides, as a function of the poller's state alone.
pub open spec fn tick_action_spec(p: Poller) -> TickAction {
    if p.busy {
        TickAction::SkipBusy
    } else if p.run_now {
        TickAction::RunForced
    } else {
        TickAction::Probe
    }
}

/// The poller's state after a tick: unchanged, unless a forced run was
/// dispatched, which consumes the request and takes the in-flight slot.
pub open spec fn tick_next_spec(p: Poller) -> Poller {
    if !p.busy && p.run_now {
        Poller { busy: true, run_now: false }
    } else {
        p
    }
}

impl Poller {
    /// A fresh poller: nothing in flight; a forced first run only when
    /// asked for one.
    pub fn new(run_now: bool) -> (p: Poller)
        ensures
            !p.busy,
            p.run_now == run_now,
    {
        Poller { busy: false, run_now }
    }

    /// Decide a tick. While a cycle is in flight nothing is dispatched and
    /// nothing changes, the forced-run request included; otherwise a
    /// pending forced run is consumed and dispatched, and failing that the
    /// upstream is probed.
    pub fn tick(&mut self) -> (r: TickAction)
        ensures
            r == tick_action_spec(*old(self)),
            *final(self) == tick_next_spec(*old(self)),
            r == TickAction::RunForced ==> final(self).busy,
    {
        if self.busy {
            TickAction::SkipBusy
        } else if self.run_now {
            self.run_now = false;
            self.busy = true;
            TickAction::RunForced
        } else {
            TickAction::Probe
        }
    }

    /// Act on a probe's finding: dispatch a cycle exactly when the
    /// upstream moved; a clean probe that found nothing, like a failed
    /// one, leaves this tick idle.
    pub fn on_detection(&mut self, d: Detection) -> (run: bool)
        requires
            !old(self).busy,
        ensures
            run == (d == Detection::Changed),
            final(self).busy == (d == Detection::Changed),
            final(self).run_now == old(self).run_now,
    {
        match d {
            Detection::Changed => {
                self.busy = true;
                true
            },
            Detection::Unchanged => false,
            Detection::FetchFailed => false,
        }
    }

    /// A finished cycle frees the single-flight slot; a forced-run request
    /// that arrived meanwhile is kept for the next tick.
    pub fn cycle_finished(&mut self)
        requires
            old(self).busy,
        ensures
            !final(self).busy,
            final(self).run_now == old(self).run_now,
    {
        self.busy = false;
    }
}

/// One step of the whole runner, seen from the poller: a timer tick (with
/// whatever a probe of the upstream would find), or the completion of the
/// cycle in flight.
pub enum RunnerEvent {
    Tick { found: Detection },
    CycleEnd,
}

/// The runner's state over time: the poller, and how many run cycles are
/// in flight.
pub struct RunnerModel {
    pub poller: Poller,
    pub in_flight: int,
}

/// Where a whole tick leaves the poller: unchanged while busy; a forced
/// run dispatched and consumed first; otherwise dispatch exactly when the
/// probe found a change. `tick` and `on_detection` together ensure exactly
/// this.
pub open spec fn tick_result(p: Poller, found: Detection) -> Poller {
    if p.busy {
        p
    } else if p.run_now {
        Poller { busy: true, run_now: false }
    } else if found == Detection::Changed {
        Poller { busy: true, run_now: p.run_now }
    } else {
        p
    }
}

/// Whether a whole tick dispatches a new run cycle.
pub open spec fn tick_dispatches(p: Poller, found: Detection) -> bool {
    !p.busy && (p.run_now || found == Detection::Changed)
}

/// The runner's transition: a tick dispatches at most one cycle, and a
/// completion frees the slot.
pub open spec fn runner_step(m: RunnerModel, e: RunnerEvent) -> RunnerModel {
    match e {
        RunnerEvent::Tick { found } => RunnerModel {
            poller: tick_result(m.poller, found),
            in_flight: m.in_flight + (if tick_dispatches(m.poller, found) {
                1int
            } else {
                0int
            }),
        },
        RunnerEvent::CycleEnd => {
            if m.poller.busy {
                RunnerModel {
                    poller: Poller { busy: false, run_now: m.poller.run_now },
                    in_flight: m.in_flight - 1,
                }
            } else {
                m
            }
        },
    }
}

/// The single-flight invariant: the busy flag counts the cycles in flight,
/// so there is never more than one.
pub open spec fn single_flight_inv(m: RunnerModel) -> bool {
    m.in_flight == (if m.poller.busy {
        1int
    } else {
        0int
    })
}

/// The runner at startup: nothing in flight.
pub open spec fn runner_init(run_now: bool) -> RunnerModel {
    RunnerModel { poller: Poller { busy: false, run_now }, in_flight: 0 }
}

/// The runner after a sequence of events.
pub open spec fn run_trace(m: RunnerModel, es: Seq<RunnerEvent>) -> RunnerModel
    decreases es.len(),
{
    if es.len() == 0 {
        m
    } else {
        run_trace(runner_step(m, es[0]), es.drop_first())
    }
}

/// Each step keeps the single-flight invariant.
pub proof fn lemma_step_preserves_single_flight(m: RunnerModel, e: RunnerEvent)
    requires
        single_flight_inv(m),
    ensures
        single_flight_inv(runner_step(m, e)),
{
}

proof fn lemma_trace_preserves_single_flight(m: RunnerModel, es: Seq<RunnerEvent>)
    requires
        single_flight_inv(m),
    ensures
        single_flight_inv(run_trace(m, es)),
    decreases es.len(),
{
    if es.len() > 0 {
        lemma_step_preserves_single_flight(m, es[0]);
        lemma_trace_preserves_single_flight(runner_step(m, es[0]), es.drop_first());
    }
}

/// Single flight, over every possible run: whatever ticks, probe findings
/// and cycle completions follow startup, and in whatever order, never more
/// than one run cycle is in flight.
pub proof fn lemma_single_flight_always(run_now: bool, es: Seq<RunnerEvent>)
    ensures
        single_flight_inv(run_trace(runner_init(run_now), es)),
        run_trace(runner_init(run_now), es).in_flight <= 1,
{
    lemma_trace_preserves_single_flight(runner_init(run_now), es);
}

/// Single flight: while a cycle is in flight, a tick dispatches no second
/// one and changes nothing — it neither probes, nor runs, nor consumes the
/// forced-run request.
pub proof fn lemma_single_flight(p: Poller)
    requires
        p.busy,
    ensures
        tick_action_spec(p) == TickAction::SkipBusy,
        tick_next_spec(p) == p,
{
}

/// The forced-run request is one-shot: the first tick with nothing in
/// flight consumes it and dispatches unconditionally.
pub proof fn lemma_forced_run_consumed(p: Poller)
    requires
        !p.busy,
        p.run_now,
    ensures
        tick_action_spec(p) == TickAction::RunForced,
        tick_next_spec(p).busy,
        !tick_next_spec(p).run_now,
{
}

} // verus!
