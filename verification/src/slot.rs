//! A model of the timer slot that the operating system keeps for a clock
//! domain: what a request does to it and when it delivers its expiry signal.
use vstd::prelude::*;
use crate::alarm::TimerRequest;
use crate::domain::ClockDomain;

verus! {

/// The state of a timer slot: the domain it belongs to, the reading of that
/// domain's clock in microseconds, and the reading past which the pending
/// expiry is delivered, if the slot is armed.
pub struct SlotState {
    pub domain: ClockDomain,
    pub now: int,
    pub deadline: Option<int>,
}

impl SlotState {
    /// Whether the slot takes `request`: it names this slot's timer and its
    /// duration is valid.
    pub open spec fn accepts(self, request: TimerRequest) -> bool {
        request.which == self.domain.timer_id() && request.value.valid()
    }

    /// The slot after `request` was made of it. A request that is not accepted
    /// changes nothing. An accepted one replaces what was pending: an empty
    /// duration disarms, any other sets the deadline that far from now.
    pub open spec fn set(self, request: TimerRequest) -> SlotState {
        if !self.accepts(request) {
            self
        } else if request.value.micros() == 0 {
            SlotState { deadline: None, ..self }
        } else {
            SlotState { deadline: Some(self.now + request.value.micros()), ..self }
        }
    }

    /// Whether the expiry signal is delivered when the clock moves on to `to`:
    /// the slot is armed and `to` lies past the deadline. A request made at the
    /// very reading of the deadline still comes in time.
    pub open spec fn fires_by(self, to: int) -> bool {
        self.deadline matches Some(deadline) && deadline < to
    }

    /// The slot after the clock has moved on to `to`. The clock never runs
    /// backwards. A timer that ran out is disarmed by that: it delivers one
    /// signal and no more.
    pub open spec fn advance(self, to: int) -> SlotState {
        SlotState {
            domain: self.domain,
            now: if to > self.now { to } else { self.now },
            deadline: if self.fires_by(to) { None } else { self.deadline },
        }
    }
}

/// An executable timer slot that follows `SlotState`, for running the watchdog
/// and the monitor against a clock that the caller moves by hand.
#[derive(Debug)]
pub struct TimerSlot {
    domain: ClockDomain,
    now: u64,
    deadline: Option<u128>,
}

impl View for TimerSlot {
    type V = SlotState;

    closed spec fn view(&self) -> SlotState {
        SlotState {
            domain: self.domain,
            now: self.now as int,
            deadline: match self.deadline {
                Some(deadline) => Some(deadline as int),
                None => None,
            },
        }
    }
}

impl TimerSlot {
    /// The disarmed slot of `domain`, with its clock at zero.
    pub fn new(domain: ClockDomain) -> (r: TimerSlot)
        ensures
            r@ == (SlotState { domain, now: 0, deadline: None }),
    {
        TimerSlot { domain, now: 0, deadline: None }
    }

    /// The reading of the slot's clock, in microseconds.
    pub fn now(&self) -> (r: u64)
        ensures
            r == self@.now,
    {
        self.now
    }

    /// Whether an expiry is pending.
    pub fn is_armed(&self) -> (r: bool)
        ensures
            r == (self@.deadline is Some),
    {
        self.deadline.is_some()
    }

    /// Makes `request` of the slot and answers as the operating system does:
    /// 0 when the request was taken, -1 when it was rejected and nothing
    /// changed.
    pub fn set(&mut self, request: &TimerRequest) -> (status: i32)
        ensures
            final(self)@ == old(self)@.set(*request),
            status == (if old(self)@.accepts(*request) { 0i32 } else { -1i32 }),
    {
        if request.which != self.domain.which() || !request.value.is_valid() {
            return -1;
        }
        if request.value.is_zero() {
            self.deadline = None;
        } else {
            let seconds: u128 = request.value.tv_sec as u128;
            let fraction: u128 = request.value.tv_usec as u128;
            let span: u128 = seconds * 1_000_000 + fraction;
            self.deadline = Some(self.now as u128 + span);
        }
        0
    }

    /// Moves the clock on to `to` microseconds; an earlier reading leaves it
    /// where it is. If the timer ran out on the way, its expiry signal is
    /// handed back and the slot is disarmed.
    pub fn advance(&mut self, to: u64) -> (delivered: Option<i32>)
        ensures
            final(self)@ == old(self)@.advance(to as int),
            delivered == (if old(self)@.fires_by(to as int) {
                Some(old(self)@.domain.expiry())
            } else {
                None
            }),
    {
        let fired = match self.deadline {
            Some(deadline) => deadline < to as u128,
            None => false,
        };
        if to > self.now {
            self.now = to;
        }
        if fired {
            self.deadline = None;
            Some(self.domain.expiry_signal())
        } else {
            None
        }
    }
}

} // verus!
