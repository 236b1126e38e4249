use block_alarm::{
    Alarm, ClockDomain, Diagnostic, Monitor, MonitorState, Phase, TimerSlot, Turn,
};

/// Starts a watchdog on a slot of its domain, lets it take a turn at each
/// reading, and hands whatever the slot delivers to a monitor. Gives back the
/// number of stalls the monitor reported and the slot at the end.
fn watch(domain: ClockDomain, timeout: i64, turns: &[u64]) -> (usize, TimerSlot) {
    let mut slot = TimerSlot::new(domain);
    let mut monitor = Monitor::new(domain);
    let (mut task, first) = Alarm::in_domain(domain, timeout).start();
    let status = slot.set(&first);
    assert_eq!(task.settle(status), Ok(()));
    let mut stalls = 0;
    for &reading in turns {
        let batch: Vec<i32> = slot.advance(reading).into_iter().collect();
        for diagnostic in monitor.drain(&batch) {
            assert_eq!(diagnostic, Diagnostic::Stall);
            stalls += 1;
        }
        assert_eq!(monitor.state(), MonitorState::Listening);
        match task.turn(false) {
            Turn::Rearm(request) => {
                let status = slot.set(&request);
                assert_eq!(task.settle(status), Ok(()));
            }
            Turn::Stop => panic!("a running task stopped"),
        }
        assert_eq!(task.phase(), Phase::Running);
    }
    (stalls, slot)
}

fn every(step: u64, from: u64, to: u64) -> Vec<u64> {
    let mut readings = Vec::new();
    let mut reading = from;
    while reading <= to {
        readings.push(reading);
        reading += step;
    }
    readings
}

#[test]
fn turns_every_ten_milliseconds_never_stall() {
    let turns = every(10_000, 10_000, 2_000_000);
    assert_eq!(turns.len(), 200);
    let (stalls, slot) = watch(ClockDomain::Virtual, 100_000, &turns);
    assert_eq!(stalls, 0);
    assert!(slot.is_armed());
}

#[test]
fn one_blocking_second_is_one_stall() {
    let mut turns = every(10_000, 10_000, 500_000);
    turns.extend(every(10_000, 1_500_000, 2_500_000));
    let (stalls, mut slot) = watch(ClockDomain::Virtual, 100_000, &turns);
    assert_eq!(stalls, 1);
    assert!(slot.is_armed());
    assert_eq!(slot.now(), 2_500_000);
    assert_eq!(slot.advance(2_600_000), None);
    assert!(slot.advance(2_600_001).is_some());
}

#[test]
fn a_turn_exactly_at_the_deadline_is_in_time() {
    let turns = every(100_000, 100_000, 1_000_000);
    let (stalls, _) = watch(ClockDomain::Real, 100_000, &turns);
    assert_eq!(stalls, 0);
}

#[test]
fn every_missed_deadline_is_one_stall() {
    let turns = [50_000u64, 200_000, 250_000, 350_001, 2_000_000, 2_000_000, 2_100_000];
    let (stalls, _) = watch(ClockDomain::Virtual, 100_000, &turns);
    assert_eq!(stalls, 3);
}

#[test]
fn a_zero_timeout_never_arms_and_never_stalls() {
    let turns = every(1_000_000, 1_000_000, 10_000_000);
    let (stalls, slot) = watch(ClockDomain::Virtual, 0, &turns);
    assert_eq!(stalls, 0);
    assert!(!slot.is_armed());
}

#[test]
fn a_monitor_of_the_other_domain_reports_no_stall() {
    let mut slot = TimerSlot::new(ClockDomain::Real);
    let mut monitor = Monitor::new(ClockDomain::Virtual);
    let (_, first) = Alarm::in_domain(ClockDomain::Real, 100_000).start();
    assert_eq!(slot.set(&first), 0);
    let batch: Vec<i32> = slot.advance(1_000_000).into_iter().collect();
    assert_eq!(batch.len(), 1);
    assert_eq!(monitor.drain(&batch), vec![Diagnostic::Unrecognized(batch[0])]);
}
