//! What the mechanism guarantees, proved over the model of the timer slot.
use vstd::prelude::*;
use crate::alarm::{arm_request, disarm_request, Alarm, TimerRequest};
use crate::domain::{class_of, ClockDomain, SignalClass};
use crate::monitor::{
    after_report, diagnostic_of, drained, on_signal, Diagnostic, Monitor, MonitorState,
};
use crate::signals::watch_list;
use crate::slot::SlotState;

verus! {

/// The readings in `turns` never go backwards and none lies before `from`.
pub open spec fn in_order(from: int, turns: Seq<int>) -> bool {
    &&& forall|i: int| 0 <= i < turns.len() ==> from <= #[trigger] turns[i]
    &&& forall|i: int, j: int| 0 <= i <= j < turns.len() ==> turns[i] <= turns[j]
}

/// The reading at which the timer was last armed before turn `i`: the turn
/// before it, or `from` for the first turn.
pub open spec fn armed_at(from: int, turns: Seq<int>, i: int) -> int {
    if i <= 0 {
        from
    } else {
        turns[i - 1]
    }
}

/// The slot after the watchdog was started on `start` and has then taken a
/// turn at each reading in `turns`: it makes `request` at the start and again
/// on every turn, and the clock moves on in between.
pub open spec fn after_turns(start: SlotState, request: TimerRequest, turns: Seq<int>) -> SlotState
    decreases turns.len(),
{
    if turns.len() == 0 {
        start.set(request)
    } else {
        after_turns(start, request, turns.drop_last()).advance(turns.last()).set(request)
    }
}

/// The number of expiry signals the slot delivers in the course of
/// `after_turns`.
pub open spec fn expiries(start: SlotState, request: TimerRequest, turns: Seq<int>) -> nat
    decreases turns.len(),
{
    if turns.len() == 0 {
        0
    } else {
        let before = after_turns(start, request, turns.drop_last());
        let fired: nat = if before.fires_by(turns.last()) {
            1
        } else {
            0
        };
        expiries(start, request, turns.drop_last()) + fired
    }
}

/// The number of turns in `turns` that came more than `timeout` after the
/// timer was last armed: the deadlines that were missed.
pub open spec fn missed(timeout: int, from: int, turns: Seq<int>) -> nat
    decreases turns.len(),
{
    if turns.len() == 0 {
        0
    } else {
        let late: nat = if turns.last() - armed_at(from, turns, turns.len() - 1) > timeout {
            1
        } else {
            0
        };
        missed(timeout, from, turns.drop_last()) + late
    }
}

/// The number of expiry signals a slot delivers while its clock moves through
/// the readings in `times` and nobody makes a request of it.
pub open spec fn deliveries(slot: SlotState, times: Seq<int>) -> nat
    decreases times.len(),
{
    if times.len() == 0 {
        0
    } else {
        let fired: nat = if slot.fires_by(times[0]) {
            1
        } else {
            0
        };
        fired + deliveries(slot.advance(times[0]), times.drop_first())
    }
}

/// After every turn of a watchdog with a positive timeout the slot is armed,
/// with its deadline one timeout after that turn.
pub proof fn lemma_rearmed(start: SlotState, domain: ClockDomain, timeout: i64, turns: Seq<int>)
    requires
        timeout > 0,
        start.domain == domain,
        in_order(start.now, turns),
    ensures
        after_turns(start, arm_request(domain, timeout), turns).domain == domain,
        after_turns(start, arm_request(domain, timeout), turns).now == armed_at(
            start.now,
            turns,
            turns.len() as int,
        ),
        after_turns(start, arm_request(domain, timeout), turns).deadline == Some(
            armed_at(start.now, turns, turns.len() as int) + timeout,
        ),
    decreases turns.len(),
{
    let request = arm_request(domain, timeout);
    assert(request.value.valid() && request.value.micros() == timeout);
    if turns.len() > 0 {
        lemma_rearmed(start, domain, timeout, turns.drop_last());
    }
}

/// A watchdog with a positive timeout that is started on a slot of its domain
/// and then takes its turns at the given readings makes the slot deliver
/// exactly one expiry signal for each deadline it missed: none for a turn that
/// came in time, and no second one however late a turn came.
pub proof fn law_one_stall_per_missed_deadline(
    start: SlotState,
    alarm: Alarm,
    turns: Seq<int>,
)
    requires
        alarm.timeout_micros() > 0,
        start.domain == alarm.clock(),
        in_order(start.now, turns),
    ensures
        expiries(start, alarm.request(), turns) == missed(
            alarm.timeout_micros() as int,
            start.now,
            turns,
        ),
    decreases turns.len(),
{
    if turns.len() > 0 {
        let earlier = turns.drop_last();
        law_one_stall_per_missed_deadline(start, alarm, earlier);
        lemma_rearmed(start, alarm.clock(), alarm.timeout_micros(), earlier);
        assert(armed_at(start.now, earlier, earlier.len() as int) == armed_at(
            start.now,
            turns,
            turns.len() - 1,
        ));
    }
}

/// While the scheduler grants the watchdog a turn at least once every timeout,
/// the slot never delivers an expiry signal, so the monitor has no stall to
/// report.
pub proof fn law_timely_turns_never_stall(start: SlotState, alarm: Alarm, turns: Seq<int>)
    requires
        alarm.timeout_micros() > 0,
        start.domain == alarm.clock(),
        in_order(start.now, turns),
        forall|i: int|
            0 <= i < turns.len() ==> #[trigger] turns[i] - armed_at(start.now, turns, i)
                <= alarm.timeout_micros(),
    ensures
        expiries(start, alarm.request(), turns) == 0,
    decreases turns.len(),
{
    if turns.len() > 0 {
        let earlier = turns.drop_last();
        assert forall|i: int| 0 <= i < earlier.len() implies #[trigger] earlier[i] - armed_at(
            start.now,
            earlier,
            i,
        ) <= alarm.timeout_micros() by {
            assert(earlier[i] == turns[i]);
            assert(armed_at(start.now, earlier, i) == armed_at(start.now, turns, i));
        }
        law_timely_turns_never_stall(start, alarm, earlier);
        lemma_rearmed(start, alarm.clock(), alarm.timeout_micros(), earlier);
        assert(armed_at(start.now, earlier, earlier.len() as int) == armed_at(
            start.now,
            turns,
            turns.len() - 1,
        ));
        assert(turns.last() == turns[turns.len() - 1]);
    }
}

/// The expiry signal of a domain is a stall to the monitor of that domain and
/// nothing else: a listening monitor reports it once and listens again.
pub proof fn law_expiry_is_reported(domain: ClockDomain)
    ensures
        class_of(domain, domain.expiry()) == SignalClass::TimerExpiry,
        diagnostic_of(domain, domain.expiry()) == Diagnostic::Stall,
        on_signal(MonitorState::Listening, class_of(domain, domain.expiry()))
            == MonitorState::Reporting,
        after_report(MonitorState::Reporting) == MonitorState::Listening,
{
}

/// A monitor that drains what its domain's slot delivered for one missed
/// deadline, a batch of the one expiry signal, reports one stall and listens
/// again; from an empty batch it reports nothing.
pub proof fn law_one_delivery_is_one_report(
    before: Monitor,
    after: Monitor,
    batch: Seq<i32>,
    out: Seq<Diagnostic>,
)
    requires
        before.mode() != MonitorState::ShuttingDown,
        drained(before, batch, after, out),
    ensures
        batch == seq![before.clock().expiry()] ==> out == seq![Diagnostic::Stall],
        batch.len() == 0 ==> out.len() == 0,
        batch == seq![before.clock().expiry()] || batch.len() == 0 ==> after.mode()
            == MonitorState::Listening,
{
    if batch == seq![before.clock().expiry()] {
        assert(batch.len() == 1);
        assert(batch[0] == before.clock().expiry());
        assert(out.len() == 1);
        assert(out =~= seq![Diagnostic::Stall]);
    }
}

/// Every signal that a monitor of `domain` listens for is either the domain's
/// expiry signal or a termination request: the monitor recognizes whatever
/// its own source hands it.
pub proof fn law_watch_list_is_recognized(domain: ClockDomain, signal: i32)
    requires
        watch_list(domain).to_set().contains(signal),
    ensures
        class_of(domain, signal) != SignalClass::Unrecognized,
        class_of(domain, signal) == SignalClass::TimerExpiry <==> signal == domain.expiry(),
{
    let list = watch_list(domain);
    assert(list.contains(signal));
    let i = choose|i: int| 0 <= i < list.len() && list[i] == signal;
    assert(list.len() == 4);
}

/// A timeout of zero means "disarm": arming with it makes the very request
/// that disarming makes.
pub proof fn law_zero_timeout_disarms(domain: ClockDomain)
    ensures
        arm_request(domain, 0) == disarm_request(domain),
{
}

/// Disarming is idempotent: the slot takes the request both times, the second
/// changes nothing, and no expiry signal is delivered after either.
pub proof fn law_disarm_idempotent(slot: SlotState, to: int)
    ensures
        slot.accepts(disarm_request(slot.domain)),
        slot.set(disarm_request(slot.domain)).accepts(disarm_request(slot.domain)),
        slot.set(disarm_request(slot.domain)).set(disarm_request(slot.domain)) == slot.set(
            disarm_request(slot.domain),
        ),
        !slot.set(disarm_request(slot.domain)).fires_by(to),
        !slot.set(disarm_request(slot.domain)).set(disarm_request(slot.domain)).fires_by(to),
{
}

/// Once the alarm's release request has been made of its slot, the slot
/// delivers no expiry signal at any later reading of the clock.
pub proof fn law_release_silences(slot: SlotState, alarm: Alarm, times: Seq<int>)
    requires
        slot.domain == alarm.clock(),
    ensures
        deliveries(slot.set(disarm_request(alarm.clock())), times) == 0,
    decreases times.len(),
{
    let released = slot.set(disarm_request(alarm.clock()));
    assert(released.deadline is None);
    if times.len() > 0 {
        let next = released.advance(times[0]);
        assert(next.set(disarm_request(alarm.clock())) == next);
        law_release_silences(next, alarm, times.drop_first());
    }
}

} // verus!
