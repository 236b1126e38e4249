//! The watchdog task: the alarm it keeps re-arming and the turns it takes.
use vstd::prelude::*;
use crate::domain::ClockDomain;
use crate::duration::Timeval;

verus! {

/// What the operating system is asked to do with a timer slot: deliver one
/// expiry signal after `value` has elapsed on the clock of timer `which`, in
/// place of whatever was pending there. An empty `value` disarms the slot. The
/// timer never reloads: after it has run out the slot is disarmed.
#[derive(Clone, Copy, Debug, PartialEq, Eq, Structural)]
pub struct TimerRequest {
    pub which: i32,
    pub value: Timeval,
}

/// A call into the operating system failed.
#[derive(Clone, Copy, Debug, PartialEq, Eq, Structural)]
pub enum PlatformError {
    /// The operating system rejected a request to set a timer.
    Timer,
    /// The signals could not be registered for delivery.
    Registration,
}

/// Where the watchdog task stands in its life.
#[derive(Clone, Copy, Debug, PartialEq, Eq, Structural)]
pub enum Phase {
    /// Created and not yet started.
    Idle,
    /// Started: the task takes a turn whenever the scheduler grants one.
    Running,
    /// A request was rejected or the owner was torn down: no more turns.
    Stopped,
}

/// What the watchdog task does with a scheduling turn.
#[derive(Clone, Copy, Debug, PartialEq, Eq, Structural)]
pub enum Turn {
    /// Make this request of the timer, then put the task back at the front of
    /// the scheduler's ready queue.
    Rearm(TimerRequest),
    /// Do not resubmit the task; its owner releases the timer.
    Stop,
}

/// The request that arms the timer of `domain` with `timeout` microseconds.
pub open spec fn arm_request(domain: ClockDomain, timeout: i64) -> TimerRequest {
    TimerRequest {
        which: domain.timer_id(),
        value: Timeval::split(timeout),
    }
}

/// The request that disarms the timer of `domain`.
pub open spec fn disarm_request(domain: ClockDomain) -> TimerRequest {
    TimerRequest { which: domain.timer_id(), value: Timeval { tv_sec: 0, tv_usec: 0 } }
}

/// The watchdog's alarm: a timeout in microseconds and the clock domain whose
/// timer slot it owns.
#[derive(Debug)]
pub struct Alarm {
    timeout: i64,
    domain: ClockDomain,
    phase: Phase,
}

impl Alarm {
    /// The timeout, in microseconds, that every re-arm sets.
    pub closed spec fn timeout_micros(&self) -> i64 {
        self.timeout
    }

    /// The clock domain whose timer the alarm owns.
    pub closed spec fn clock(&self) -> ClockDomain {
        self.domain
    }

    /// Where the task stands in its life.
    pub closed spec fn stage(&self) -> Phase {
        self.phase
    }

    /// The request that every re-arm of this alarm makes.
    pub open spec fn request(&self) -> TimerRequest {
        arm_request(self.clock(), self.timeout_micros())
    }

    /// An alarm of `timeout` microseconds on processor time, not yet started.
    pub fn new(timeout: i64) -> (r: Alarm)
        ensures
            r.timeout_micros() == timeout,
            r.clock() == ClockDomain::Virtual,
            r.stage() == Phase::Idle,
    {
        Alarm { timeout, domain: ClockDomain::Virtual, phase: Phase::Idle }
    }

    /// An alarm of `timeout` microseconds on the clock of `domain`, not yet
    /// started.
    pub fn in_domain(domain: ClockDomain, timeout: i64) -> (r: Alarm)
        ensures
            r.timeout_micros() == timeout,
            r.clock() == domain,
            r.stage() == Phase::Idle,
    {
        Alarm { timeout, domain, phase: Phase::Idle }
    }

    /// The timeout, in microseconds, that every re-arm sets.
    pub fn timeout(&self) -> (r: i64)
        ensures
            r == self.timeout_micros(),
    {
        self.timeout
    }

    /// The clock domain whose timer the alarm owns.
    pub fn domain(&self) -> (r: ClockDomain)
        ensures
            r == self.clock(),
    {
        self.domain
    }

    /// Where the task stands in its life.
    pub fn phase(&self) -> (r: Phase)
        ensures
            r == self.stage(),
    {
        self.phase
    }

    /// The request that arms the timer once more with the alarm's timeout. The
    /// alarm itself does not change.
    pub fn retrigger(&mut self) -> (r: TimerRequest)
        ensures
            r == old(self).request(),
            *final(self) == *old(self),
    {
        TimerRequest { which: self.domain.which(), value: Timeval::from_micros(self.timeout) }
    }

    /// The request that disarms the alarm's timer. It is the same request every
    /// time, so disarming twice asks nothing new.
    pub fn disarm(&self) -> (r: TimerRequest)
        ensures
            r == disarm_request(self.clock()),
    {
        TimerRequest { which: self.domain.which(), value: Timeval::zero() }
    }

    /// Starts the watchdog: the alarm becomes a running task, and the request
    /// that arms the timer for the first time is handed out with it.
    pub fn start(self) -> (r: (Alarm, TimerRequest))
        ensures
            r.0.timeout_micros() == self.timeout_micros(),
            r.0.clock() == self.clock(),
            r.0.stage() == Phase::Running,
            r.1 == self.request(),
    {
        let mut task = self;
        let first = task.retrigger();
        task.phase = Phase::Running;
        (task, first)
    }

    /// One scheduling turn of the watchdog task. A running task whose owner is
    /// still there re-arms the timer and goes back to the front of the queue.
    /// Once `cancelled` is set, or when the task is not running, the task stops
    /// for good.
    pub fn turn(&mut self, cancelled: bool) -> (r: Turn)
        ensures
            final(self).timeout_micros() == old(self).timeout_micros(),
            final(self).clock() == old(self).clock(),
            old(self).stage() == Phase::Running && !cancelled ==> r == Turn::Rearm(old(self).request())
                && final(self).stage() == Phase::Running,
            old(self).stage() != Phase::Running || cancelled ==> r == Turn::Stop
                && final(self).stage() == Phase::Stopped,
    {
        if self.phase == Phase::Running && !cancelled {
            Turn::Rearm(self.retrigger())
        } else {
            self.phase = Phase::Stopped;
            Turn::Stop
        }
    }

    /// Takes the operating system's answer to a request: zero is success, and
    /// anything else is surfaced as an error that stops the task.
    pub fn settle(&mut self, status: i32) -> (r: Result<(), PlatformError>)
        ensures
            final(self).timeout_micros() == old(self).timeout_micros(),
            final(self).clock() == old(self).clock(),
            status == 0 ==> r == Ok::<(), PlatformError>(()) && final(self).stage() == old(self).stage(),
            status != 0 ==> r == Err::<(), PlatformError>(PlatformError::Timer)
                && final(self).stage() == Phase::Stopped,
    {
        if status == 0 {
            Ok(())
        } else {
            self.phase = Phase::Stopped;
            Err(PlatformError::Timer)
        }
    }

    /// Gives the alarm up. The request that comes back disarms the timer; the
    /// alarm is gone, so it is made exactly once.
    pub fn release(self) -> (r: TimerRequest)
        ensures
            r == disarm_request(self.clock()),
    {
        self.disarm()
    }
}

} // verus!
