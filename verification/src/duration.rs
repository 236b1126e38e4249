//! Durations in the form the interval timers of the operating system take them.
use vstd::prelude::*;

verus! {

/// Microseconds in one second.
pub const MICROS_PER_SEC: i64 = 1_000_000;

/// The quotient of `micros` by a second, rounded toward zero.
pub open spec fn whole_seconds(micros: int) -> int {
    if micros >= 0 {
        micros / 1_000_000
    } else {
        -((-micros) / 1_000_000)
    }
}

/// What is left of `micros` beyond its whole seconds; it has the sign of `micros`.
pub open spec fn sub_second(micros: int) -> int {
    micros - whole_seconds(micros) * 1_000_000
}

/// A duration as whole seconds and the microseconds beyond them.
#[derive(Clone, Copy, Debug, PartialEq, Eq, Structural)]
pub struct Timeval {
    pub tv_sec: i64,
    pub tv_usec: i64,
}

impl Timeval {
    /// The duration in microseconds.
    pub open spec fn micros(self) -> int {
        self.tv_sec * 1_000_000 + self.tv_usec
    }

    /// A duration that an interval timer accepts: not negative, with less than
    /// a second in the microseconds.
    pub open spec fn valid(self) -> bool {
        self.tv_sec >= 0 && 0 <= self.tv_usec < 1_000_000
    }

    /// The split of `micros` into seconds and microseconds, both rounded toward
    /// zero.
    pub open spec fn split(micros: i64) -> Timeval {
        Timeval {
            tv_sec: whole_seconds(micros as int) as i64,
            tv_usec: sub_second(micros as int) as i64,
        }
    }

    /// The empty duration, which disarms a timer.
    pub fn zero() -> (r: Timeval)
        ensures
            r.tv_sec == 0,
            r.tv_usec == 0,
    {
        Timeval { tv_sec: 0, tv_usec: 0 }
    }

    /// Splits a number of microseconds into seconds and microseconds, both
    /// rounded toward zero. A negative number gives a duration that is not
    /// valid, which a timer rejects.
    pub fn from_micros(micros: i64) -> (r: Timeval)
        ensures
            r == Timeval::split(micros),
            r.tv_sec == whole_seconds(micros as int),
            r.tv_usec == sub_second(micros as int),
            r.micros() == micros,
            r.valid() <==> micros >= 0,
    {
        if micros >= 0 {
            Timeval { tv_sec: micros / MICROS_PER_SEC, tv_usec: micros % MICROS_PER_SEC }
        } else if micros == i64::MIN {
            Timeval { tv_sec: -9_223_372_036_854, tv_usec: -775_808 }
        } else {
            let magnitude: i64 = -micros;
            Timeval {
                tv_sec: -(magnitude / MICROS_PER_SEC),
                tv_usec: -(magnitude % MICROS_PER_SEC),
            }
        }
    }

    /// Whether the duration is empty.
    pub fn is_zero(&self) -> (r: bool)
        ensures
            r == (self.tv_sec == 0 && self.tv_usec == 0),
    {
        self.tv_sec == 0 && self.tv_usec == 0
    }

    /// Whether an interval timer accepts the duration.
    pub fn is_valid(&self) -> (r: bool)
        ensures
            r == self.valid(),
    {
        self.tv_sec >= 0 && 0 <= self.tv_usec && self.tv_usec < MICROS_PER_SEC
    }
}

} // verus!
