//! The reporter: what the periodic drain does, and in which order.
//!
//! The reporter itself neither sleeps nor prints. It says what is to be done
//! next; whoever hosts it does that and comes back with what happened.

use crate::buckets::no_buckets;
use crate::calc::WriteCalculator;
use crate::collector::SimpleCollector;
use crate::data::MeterRecord;
use crate::totals::{totals_fit, totals_of, Totals};
use vstd::prelude::*;

verus! {

/// Seconds between two drains.
pub const REPORT_INTERVAL_SECS: u64 = 5;

/// Where the reporter is in its cycle.
#[derive(Debug, Clone, Copy, PartialEq, Eq, Structural)]
pub enum ReporterState {
    /// Not started yet.
    Idle,
    /// The timer is running.
    Waiting,
    /// The buckets are being summed up and cleared.
    Draining,
    /// The report is being handed on.
    Reporting,
}

/// What the host tells the reporter.
#[derive(Debug, Clone, Copy, PartialEq, Eq, Structural)]
pub enum ReporterEvent {
    /// The hosting task has started the reporter.
    Started,
    /// The timer has run out.
    Woke,
    /// The buckets have been drained.
    Drained,
    /// The report has been handed on.
    Reported,
}

/// What the reporter asks the host to do.
#[derive(Debug, Clone, Copy, PartialEq, Eq, Structural)]
pub enum ReporterAction {
    /// Wait for so many seconds, then say `Woke`.
    Sleep { secs: u64 },
    /// Call `drain` on the collector, then say `Drained`.
    Drain,
    /// Hand the report on, then say `Reported`.
    Report,
}

/// What summing up gave when the buckets were last drained.
pub struct Report {
    pub writes: Totals,
    pub reads: Totals,
}

/// The state after `event` has come in while the reporter was in `state`.
/// An event that the state does not wait for changes nothing.
pub open spec fn next_state(state: ReporterState, event: ReporterEvent) -> ReporterState {
    match (state, event) {
        (ReporterState::Idle, ReporterEvent::Started) => ReporterState::Waiting,
        (ReporterState::Waiting, ReporterEvent::Woke) => ReporterState::Draining,
        (ReporterState::Draining, ReporterEvent::Drained) => ReporterState::Reporting,
        (ReporterState::Reporting, ReporterEvent::Reported) => ReporterState::Waiting,
        _ => state,
    }
}

/// What is to be done on entering `state`: nothing on staying where one was.
pub open spec fn action_on(before: ReporterState, state: ReporterState) -> Option<ReporterAction> {
    if before == state {
        None
    } else {
        match state {
            ReporterState::Idle => None,
            ReporterState::Waiting => Some(ReporterAction::Sleep { secs: REPORT_INTERVAL_SECS }),
            ReporterState::Draining => Some(ReporterAction::Drain),
            ReporterState::Reporting => Some(ReporterAction::Report),
        }
    }
}

/// The event that `state` waits for.
pub open spec fn awaited(state: ReporterState) -> ReporterEvent {
    match state {
        ReporterState::Idle => ReporterEvent::Started,
        ReporterState::Waiting => ReporterEvent::Woke,
        ReporterState::Draining => ReporterEvent::Drained,
        ReporterState::Reporting => ReporterEvent::Reported,
    }
}

/// No state is final: in each state the event it waits for leads on, with
/// something to do, and never back to `Idle`. From `Waiting` the three
/// events of a round lead back to `Waiting`.
pub proof fn lemma_reporter_never_stops(state: ReporterState)
    ensures
        next_state(state, awaited(state)) != state,
        next_state(state, awaited(state)) != ReporterState::Idle,
        action_on(state, next_state(state, awaited(state))) is Some,
        next_state(
            next_state(
                next_state(ReporterState::Waiting, ReporterEvent::Woke),
                ReporterEvent::Drained,
            ),
            ReporterEvent::Reported,
        ) == ReporterState::Waiting,
{
}

/// A reporter that drains a `SimpleCollector` every few seconds.
pub struct SimpleReporter {
    state: ReporterState,
}

impl SimpleReporter {
    /// The state the reporter is in.
    pub closed spec fn state(&self) -> ReporterState {
        self.state
    }

    /// A reporter that has not been started.
    pub fn new() -> (reporter: Self)
        ensures
            reporter.state() == ReporterState::Idle,
    {
        Self { state: ReporterState::Idle }
    }

    /// Takes `event` in and says what the host is to do next, if anything.
    pub fn step(&mut self, event: ReporterEvent) -> (action: Option<ReporterAction>)
        ensures
            final(self).state() == next_state(old(self).state(), event),
            action == action_on(old(self).state(), final(self).state()),
    {
        let next = match (self.state, event) {
            (ReporterState::Idle, ReporterEvent::Started) => ReporterState::Waiting,
            (ReporterState::Waiting, ReporterEvent::Woke) => ReporterState::Draining,
            (ReporterState::Draining, ReporterEvent::Drained) => ReporterState::Reporting,
            (ReporterState::Reporting, ReporterEvent::Reported) => ReporterState::Waiting,
            (state, _) => state,
        };
        let action = if next == self.state {
            None
        } else {
            match next {
                ReporterState::Idle => None,
                ReporterState::Waiting => Some(ReporterAction::Sleep { secs: REPORT_INTERVAL_SECS }),
                ReporterState::Draining => Some(ReporterAction::Drain),
                ReporterState::Reporting => Some(ReporterAction::Report),
            }
        };
        self.state = next;
        action
    }

    /// Sums up both directions, then clears the collector: the report is of
    /// what was filed before the call, and nothing of it is left behind.
    pub fn drain<W, R>(collector: &mut SimpleCollector<W, R>) -> (report: Report) where
        W: WriteCalculator<MeterRecord>,
        R: WriteCalculator<MeterRecord>,

        requires
            totals_fit(&old(collector).wcu_calc(), old(collector).writes()),
            totals_fit(&old(collector).rcu_calc(), old(collector).reads()),
        ensures
            report.writes@ == totals_of(&old(collector).wcu_calc(), old(collector).writes()),
            report.reads@ == totals_of(&old(collector).rcu_calc(), old(collector).reads()),
            final(collector).writes() == no_buckets(),
            final(collector).reads() == no_buckets(),
            old(collector).same_calcs(final(collector)),
    {
        let writes = collector.schema_wcus();
        let reads = collector.schema_rcus();
        collector.clear();
        Report { writes, reads }
    }

    /// As `drain`, for a collector of which it is not known that every sum
    /// fits: where one does not, nothing is cleared and `None` comes back.
    pub fn checked_drain<W, R>(collector: &mut SimpleCollector<W, R>) -> (report: Option<Report>) where
        W: WriteCalculator<MeterRecord>,
        R: WriteCalculator<MeterRecord>,

        ensures
            report is Some <==> totals_fit(&old(collector).wcu_calc(), old(collector).writes())
                && totals_fit(&old(collector).rcu_calc(), old(collector).reads()),
            report is Some ==> report->0.writes@ == totals_of(
                &old(collector).wcu_calc(),
                old(collector).writes(),
            ) && report->0.reads@ == totals_of(&old(collector).rcu_calc(), old(collector).reads())
                && final(collector).writes() == no_buckets() && final(collector).reads()
                == no_buckets() && old(collector).same_calcs(final(collector)),
            report is None ==> *final(collector) == *old(collector),
    {
        let writes = match collector.checked_schema_wcus() {
            Some(writes) => writes,
            None => {
                return None;
            },
        };
        let reads = match collector.checked_schema_rcus() {
            Some(reads) => reads,
            None => {
                return None;
            },
        };
        collector.clear();
        Some(Report { writes, reads })
    }
}

} // verus!
