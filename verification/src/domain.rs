//! Clock domains and the signals that belong to them.
use vstd::prelude::*;

verus! {

/// The timer that counts wall-clock time.
pub const ITIMER_REAL: i32 = 0;

/// The timer that counts the processor time the process consumes.
pub const ITIMER_VIRTUAL: i32 = 1;

/// Interrupt from the keyboard.
pub const SIGINT: i32 = 2;

/// Quit from the keyboard.
pub const SIGQUIT: i32 = 3;

/// Expiry of the wall-clock timer.
pub const SIGALRM: i32 = 14;

/// Request to terminate.
pub const SIGTERM: i32 = 15;

/// Expiry of the processor-time timer.
pub const SIGVTALRM: i32 = 26;

/// The notion of elapsed time that a timer counts in. Each domain has one
/// timer slot and one expiry signal of its own.
#[derive(Clone, Copy, Debug, PartialEq, Eq, Structural)]
pub enum ClockDomain {
    /// Time elapsed on the wall clock.
    Real,
    /// Processor time consumed by the process.
    Virtual,
}

/// What a signal means to the monitor.
#[derive(Clone, Copy, Debug, PartialEq, Eq, Structural)]
pub enum SignalClass {
    /// The timer of the monitored domain ran out: a stall.
    TimerExpiry,
    /// An interrupt, quit or terminate request.
    Termination,
    /// Anything else.
    Unrecognized,
}

impl ClockDomain {
    /// The number by which the operating system knows the domain's timer.
    pub open spec fn timer_id(self) -> i32 {
        match self {
            ClockDomain::Real => ITIMER_REAL,
            ClockDomain::Virtual => ITIMER_VIRTUAL,
        }
    }

    /// The signal that is delivered when the domain's timer runs out.
    pub open spec fn expiry(self) -> i32 {
        match self {
            ClockDomain::Real => SIGALRM,
            ClockDomain::Virtual => SIGVTALRM,
        }
    }

    /// The number by which the operating system knows the domain's timer.
    pub fn which(self) -> (r: i32)
        ensures
            r == self.timer_id(),
    {
        match self {
            ClockDomain::Real => ITIMER_REAL,
            ClockDomain::Virtual => ITIMER_VIRTUAL,
        }
    }

    /// The signal that is delivered when the domain's timer runs out.
    pub fn expiry_signal(self) -> (r: i32)
        ensures
            r == self.expiry(),
    {
        match self {
            ClockDomain::Real => SIGALRM,
            ClockDomain::Virtual => SIGVTALRM,
        }
    }
}

/// Whether `signal` asks the process to end.
pub open spec fn is_termination(signal: i32) -> bool {
    signal == SIGTERM || signal == SIGINT || signal == SIGQUIT
}

/// The class of `signal` for a monitor of `domain`. A termination request is one
/// in every domain; the expiry signal of the other domain is not recognized.
pub open spec fn class_of(domain: ClockDomain, signal: i32) -> SignalClass {
    if is_termination(signal) {
        SignalClass::Termination
    } else if signal == domain.expiry() {
        SignalClass::TimerExpiry
    } else {
        SignalClass::Unrecognized
    }
}

/// Sorts a signal number into its class for a monitor of `domain`.
pub fn classify(domain: ClockDomain, signal: i32) -> (r: SignalClass)
    ensures
        r == class_of(domain, signal),
{
    if signal == SIGTERM || signal == SIGINT || signal == SIGQUIT {
        SignalClass::Termination
    } else if signal == domain.expiry_signal() {
        SignalClass::TimerExpiry
    } else {
        SignalClass::Unrecognized
    }
}

} // verus!
