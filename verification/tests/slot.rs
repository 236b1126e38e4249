use block_alarm::domain::{SIGALRM, SIGVTALRM};
use block_alarm::{Alarm, ClockDomain, TimerRequest, TimerSlot, Timeval};

fn one_shot(which: i32, micros: i64) -> TimerRequest {
    TimerRequest { which, value: Timeval::from_micros(micros) }
}

#[test]
fn a_new_slot_is_disarmed_at_zero() {
    let mut slot = TimerSlot::new(ClockDomain::Virtual);
    assert_eq!(slot.now(), 0);
    assert!(!slot.is_armed());
    assert_eq!(slot.advance(u64::MAX), None);
    assert_eq!(slot.now(), u64::MAX);
}

#[test]
fn an_armed_slot_fires_once_past_its_deadline() {
    let mut slot = TimerSlot::new(ClockDomain::Virtual);
    assert_eq!(slot.set(&one_shot(1, 100_000)), 0);
    assert!(slot.is_armed());
    assert_eq!(slot.advance(99_999), None);
    assert_eq!(slot.advance(100_000), None);
    assert!(slot.is_armed());
    assert_eq!(slot.advance(100_001), Some(SIGVTALRM));
    assert!(!slot.is_armed());
    assert_eq!(slot.advance(1_000_000), None);
    assert_eq!(slot.advance(u64::MAX), None);
}

#[test]
fn the_wall_clock_slot_delivers_its_own_signal() {
    let mut slot = TimerSlot::new(ClockDomain::Real);
    assert_eq!(slot.set(&one_shot(0, 1)), 0);
    assert_eq!(slot.advance(2), Some(SIGALRM));
}

#[test]
fn arming_replaces_what_was_pending() {
    let mut slot = TimerSlot::new(ClockDomain::Virtual);
    assert_eq!(slot.set(&one_shot(1, 100_000)), 0);
    assert_eq!(slot.advance(60_000), None);
    assert_eq!(slot.set(&one_shot(1, 100_000)), 0);
    assert_eq!(slot.advance(160_000), None);
    assert_eq!(slot.advance(160_001), Some(SIGVTALRM));
}

#[test]
fn a_request_for_another_timer_is_rejected() {
    let mut slot = TimerSlot::new(ClockDomain::Virtual);
    assert_eq!(slot.set(&one_shot(0, 100_000)), -1);
    assert!(!slot.is_armed());
    assert_eq!(slot.set(&one_shot(7, 100_000)), -1);
    assert!(!slot.is_armed());
}

#[test]
fn an_invalid_duration_is_rejected_and_changes_nothing() {
    let mut slot = TimerSlot::new(ClockDomain::Virtual);
    assert_eq!(slot.set(&one_shot(1, 100_000)), 0);
    assert_eq!(slot.set(&one_shot(1, -5)), -1);
    let bad = TimerRequest { which: 1, value: Timeval { tv_sec: 0, tv_usec: 1_000_000 } };
    assert_eq!(slot.set(&bad), -1);
    assert!(slot.is_armed());
    assert_eq!(slot.advance(100_001), Some(SIGVTALRM));
}

#[test]
fn a_negative_timeout_is_rejected_by_the_slot() {
    let (mut task, first) = Alarm::new(-100_000).start();
    let mut slot = TimerSlot::new(ClockDomain::Virtual);
    let status = slot.set(&first);
    assert_eq!(status, -1);
    assert_eq!(task.settle(status), Err(block_alarm::PlatformError::Timer));
    assert!(!slot.is_armed());
}

#[test]
fn the_clock_does_not_run_backwards() {
    let mut slot = TimerSlot::new(ClockDomain::Virtual);
    assert_eq!(slot.advance(500), None);
    assert_eq!(slot.advance(200), None);
    assert_eq!(slot.now(), 500);
    assert_eq!(slot.set(&one_shot(1, 100)), 0);
    assert_eq!(slot.advance(600), None);
    assert_eq!(slot.advance(601), Some(SIGVTALRM));
}

#[test]
fn the_longest_duration_fits_at_the_latest_reading() {
    let mut slot = TimerSlot::new(ClockDomain::Virtual);
    assert_eq!(slot.advance(u64::MAX), None);
    let longest = TimerRequest { which: 1, value: Timeval { tv_sec: i64::MAX, tv_usec: 999_999 } };
    assert_eq!(slot.set(&longest), 0);
    assert!(slot.is_armed());
    assert_eq!(slot.advance(u64::MAX), None);
    assert!(slot.is_armed());
}

#[test]
fn disarming_twice_is_taken_and_nothing_strays() {
    let alarm = Alarm::new(100_000);
    let mut slot = TimerSlot::new(ClockDomain::Virtual);
    assert_eq!(slot.set(&one_shot(1, 100_000)), 0);
    assert_eq!(slot.set(&alarm.disarm()), 0);
    assert!(!slot.is_armed());
    assert_eq!(slot.set(&alarm.disarm()), 0);
    assert!(!slot.is_armed());
    assert_eq!(slot.advance(100_001), None);
    assert_eq!(slot.advance(10_000_000), None);
}

#[test]
fn disarming_a_disarmed_slot_succeeds() {
    let alarm = Alarm::in_domain(ClockDomain::Real, 100_000);
    let mut slot = TimerSlot::new(ClockDomain::Real);
    assert_eq!(slot.set(&alarm.disarm()), 0);
    assert!(!slot.is_armed());
    assert_eq!(slot.advance(u64::MAX), None);
}

#[test]
fn a_released_alarm_delivers_nothing_more() {
    let (mut task, first) = Alarm::new(100_000).start();
    let mut slot = TimerSlot::new(ClockDomain::Virtual);
    assert_eq!(slot.set(&first), 0);
    assert_eq!(slot.advance(50_000), None);
    assert_eq!(task.turn(true), block_alarm::Turn::Stop);
    assert_eq!(slot.set(&task.release()), 0);
    for reading in [100_000u64, 150_000, 150_001, 1_000_000, 60_000_000] {
        assert_eq!(slot.advance(reading), None);
    }
    assert!(!slot.is_armed());
}
