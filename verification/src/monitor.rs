//! The stall monitor: a small state machine over the signals it is handed.
use vstd::prelude::*;
use crate::domain::{class_of, classify, is_termination, ClockDomain, SignalClass};

verus! {

/// The states of the monitor.
#[derive(Clone, Copy, Debug, PartialEq, Eq, Structural)]
pub enum MonitorState {
    /// Waiting for signals.
    Listening,
    /// A stall was seen and is being reported.
    Reporting,
    /// A termination request was seen. Nothing is taken after it.
    ShuttingDown,
}

/// What the monitor has to say about a signal.
#[derive(Clone, Copy, Debug, PartialEq, Eq, Structural)]
pub enum Diagnostic {
    /// The timer ran out: a scheduling turn did not arrive in time.
    Stall,
    /// A signal of no known class, which is logged and otherwise ignored.
    Unrecognized(i32),
}

/// The state after a signal of class `class` is seen in `state`.
pub open spec fn on_signal(state: MonitorState, class: SignalClass) -> MonitorState {
    match state {
        MonitorState::ShuttingDown => MonitorState::ShuttingDown,
        _ => match class {
            SignalClass::Termination => MonitorState::ShuttingDown,
            SignalClass::TimerExpiry => MonitorState::Reporting,
            SignalClass::Unrecognized => state,
        },
    }
}

/// The state after a report has been made.
pub open spec fn after_report(state: MonitorState) -> MonitorState {
    match state {
        MonitorState::Reporting => MonitorState::Listening,
        _ => state,
    }
}

/// What a monitor of `domain` says about a signal that is no termination
/// request.
pub open spec fn diagnostic_of(domain: ClockDomain, signal: i32) -> Diagnostic {
    if signal == domain.expiry() {
        Diagnostic::Stall
    } else {
        Diagnostic::Unrecognized(signal)
    }
}

/// The monitor of one clock domain.
#[derive(Debug)]
pub struct Monitor {
    domain: ClockDomain,
    state: MonitorState,
}

/// `before` is a monitor that still takes signals, `batch` the signals handed
/// to it in order, `after` the monitor and `out` its diagnostics once the
/// batch is drained: one diagnostic for each signal that comes before the
/// first termination request, none for that request or anything behind it.
pub open spec fn drained(
    before: Monitor,
    batch: Seq<i32>,
    after: Monitor,
    out: Seq<Diagnostic>,
) -> bool {
    &&& after.clock() == before.clock()
    &&& out.len() <= batch.len()
    &&& forall|i: int|
        0 <= i < out.len() ==> !is_termination(#[trigger] batch[i]) && out[i] == diagnostic_of(
            before.clock(),
            batch[i],
        )
    &&& out.len() < batch.len() ==> is_termination(batch[out.len() as int]) && after.mode()
        == MonitorState::ShuttingDown
    &&& out.len() == batch.len() ==> after.mode() == MonitorState::Listening
}

impl Monitor {
    /// The clock domain whose expiry signal counts as a stall.
    pub closed spec fn clock(&self) -> ClockDomain {
        self.domain
    }

    /// The state the monitor is in.
    pub closed spec fn mode(&self) -> MonitorState {
        self.state
    }

    /// A monitor of `domain`, listening.
    pub fn new(domain: ClockDomain) -> (r: Monitor)
        ensures
            r.clock() == domain,
            r.mode() == MonitorState::Listening,
    {
        Monitor { domain, state: MonitorState::Listening }
    }

    /// The clock domain whose expiry signal counts as a stall.
    pub fn domain(&self) -> (r: ClockDomain)
        ensures
            r == self.clock(),
    {
        self.domain
    }

    /// The state the monitor is in.
    pub fn state(&self) -> (r: MonitorState)
        ensures
            r == self.mode(),
    {
        self.state
    }

    /// Whether a termination request has been seen.
    pub fn is_shutting_down(&self) -> (r: bool)
        ensures
            r == (self.mode() == MonitorState::ShuttingDown),
    {
        self.state == MonitorState::ShuttingDown
    }

    /// Takes one signal. The expiry signal of the monitor's domain moves it to
    /// `Reporting` and yields a stall; a termination request moves it to
    /// `ShuttingDown`; any other signal is named and changes nothing. A monitor
    /// that is shutting down takes nothing and says nothing.
    pub fn observe(&mut self, signal: i32) -> (r: Option<Diagnostic>)
        ensures
            final(self).clock() == old(self).clock(),
            final(self).mode() == on_signal(old(self).mode(), class_of(old(self).clock(), signal)),
            r is None <==> old(self).mode() == MonitorState::ShuttingDown || is_termination(signal),
            r is Some ==> r == Some(diagnostic_of(old(self).clock(), signal)),
    {
        if self.state == MonitorState::ShuttingDown {
            return None;
        }
        match classify(self.domain, signal) {
            SignalClass::Termination => {
                self.state = MonitorState::ShuttingDown;
                None
            },
            SignalClass::TimerExpiry => {
                self.state = MonitorState::Reporting;
                Some(Diagnostic::Stall)
            },
            SignalClass::Unrecognized => Some(Diagnostic::Unrecognized(signal)),
        }
    }

    /// Goes back to listening once a report has been made. In any other state
    /// nothing changes.
    pub fn resume(&mut self)
        ensures
            final(self).clock() == old(self).clock(),
            final(self).mode() == after_report(old(self).mode()),
    {
        if self.state == MonitorState::Reporting {
            self.state = MonitorState::Listening;
        }
    }

    /// Drains one batch of signals, in order. Every signal before the first
    /// termination request gets its diagnostic; the request itself ends the
    /// batch and whatever follows it is left alone. A monitor that was already
    /// shutting down takes nothing.
    pub fn drain(&mut self, batch: &Vec<i32>) -> (r: Vec<Diagnostic>)
        ensures
            old(self).mode() == MonitorState::ShuttingDown ==> r@.len() == 0 && *final(self) == *old(
                self,
            ),
            old(self).mode() != MonitorState::ShuttingDown ==> drained(
                *old(self),
                batch@,
                *final(self),
                r@,
            ),
    {
        let mut out: Vec<Diagnostic> = Vec::new();
        if self.state == MonitorState::ShuttingDown {
            return out;
        }
        self.resume();
        let mut i: usize = 0;
        while i < batch.len() && !self.is_shutting_down()
            invariant
                i <= batch.len(),
                self.clock() == old(self).clock(),
                self.mode() == MonitorState::Listening || self.mode() == MonitorState::ShuttingDown,
                self.mode() == MonitorState::Listening ==> out@.len() == i,
                self.mode() == MonitorState::ShuttingDown ==> out@.len() + 1 == i && is_termination(
                    batch@[i - 1],
                ),
                forall|j: int|
                    0 <= j < out@.len() ==> !is_termination(#[trigger] batch@[j]) && out@[j]
                        == diagnostic_of(old(self).clock(), batch@[j]),
            decreases batch.len() - i,
        {
            match self.observe(batch[i]) {
                Some(diagnostic) => {
                    out.push(diagnostic);
                    self.resume();
                },
                None => {},
            }
            i = i + 1;
        }
        out
    }
}

} // verus!
