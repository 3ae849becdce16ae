use std::cell::Cell;
use std::rc::Rc;

use bind_hal::time_driver::AlarmCallback;
use bind_hal::time_driver::FireOutcome;
use bind_hal::time_driver::HardwareClock;
use bind_hal::time_driver::SystickDriver;

/// Counts its invocations; optionally asks once for a new deadline from
/// inside the callback, as a "sleep until" loop would.
struct CountingCallback {
    fires: Rc<Cell<u32>>,
    rearm: Rc<Cell<Option<u64>>>,
}

impl AlarmCallback for CountingCallback {
    fn on_alarm(&mut self) -> Option<u64> {
        self.fires.set(self.fires.get() + 1);
        self.rearm.take()
    }
}

fn driver_with_callback() -> (
    SystickDriver<CountingCallback>,
    bind_hal::time_driver::AlarmHandle,
    Rc<Cell<u32>>,
    Rc<Cell<Option<u64>>>,
) {
    let fires = Rc::new(Cell::new(0));
    let rearm = Rc::new(Cell::new(None));
    let mut driver: SystickDriver<CountingCallback> = SystickDriver::new();
    let handle = driver.allocate_alarm().unwrap();
    driver.set_alarm_callback(
        handle,
        CountingCallback { fires: fires.clone(), rearm: rearm.clone() },
    );
    (driver, handle, fires, rearm)
}

#[test]
fn clock_counts_each_interrupt() {
    let mut clock = HardwareClock::new();
    assert_eq!(clock.now(), 0);
    for expected in 1u64..=1000 {
        clock.on_tick_interrupt();
        assert_eq!(clock.now(), expected);
    }
}

#[test]
fn clock_is_nondecreasing() {
    let mut clock = HardwareClock::new();
    let mut last = clock.now();
    for _ in 0..1000 {
        clock.on_tick_interrupt();
        let now = clock.now();
        assert!(now >= last);
        last = now;
    }
}

#[test]
fn low_word_wrap_carries_into_high_word() {
    // the state just before the 2^32nd interrupt
    let mut clock = HardwareClock::from_words(u32::MAX, 0);
    assert_eq!(clock.now(), u32::MAX as u64);
    clock.on_tick_interrupt();
    // after exactly 2^32 interrupts from zero, the clock reads 2^32
    assert_eq!(clock.now(), 1u64 << 32);
    clock.on_tick_interrupt();
    assert_eq!(clock.now(), (1u64 << 32) + 1);
}

#[test]
fn now_composes_both_words() {
    let clock = HardwareClock::from_words(0x89AB_CDEF, 0x0123_4567);
    assert_eq!(clock.now(), 0x0123_4567_89AB_CDEFu64);
}

#[test]
fn alarm_slot_allocates_once() {
    let mut driver: SystickDriver<CountingCallback> = SystickDriver::new();
    let handle = driver.allocate_alarm().unwrap();
    assert_eq!(handle.id(), 0);
    assert!(driver.allocate_alarm().is_none());
    assert!(driver.allocate_alarm().is_none());
}

#[test]
fn expired_deadline_returns_false_and_never_fires() {
    let (mut driver, handle, fires, _rearm) = driver_with_callback();
    for _ in 0..5 {
        driver.on_interrupt();
    }
    // now() is 5; a deadline of 5 is not in the future
    assert_eq!(driver.now(), 5);
    assert!(!driver.set_alarm(handle, 5));
    for _ in 0..100 {
        driver.on_interrupt();
    }
    assert_eq!(fires.get(), 0);
}

#[test]
fn future_deadline_fires_exactly_once() {
    let (mut driver, handle, fires, _rearm) = driver_with_callback();
    assert!(driver.set_alarm(handle, 10));
    let mut fired_ticks = Vec::new();
    for _ in 0..100 {
        if driver.on_interrupt().fired() {
            fired_ticks.push(driver.now());
        }
    }
    assert_eq!(fires.get(), 1);
    // the one-tick look-ahead fires the alarm one tick before its deadline
    assert_eq!(fired_ticks, vec![9]);
}

#[test]
fn callback_can_rearm_without_losing_the_new_deadline() {
    let (mut driver, handle, fires, rearm) = driver_with_callback();
    // when the first fire happens, the callback asks to be woken again
    rearm.set(Some(20));
    assert!(driver.set_alarm(handle, 5));
    let mut answers = Vec::new();
    for _ in 0..100 {
        if let FireOutcome::Fired(request) = driver.on_interrupt() {
            answers.push(request);
        }
    }
    // both the first deadline and the re-armed one fired, and the outcome
    // carried the callback's answer each time
    assert_eq!(fires.get(), 2);
    assert_eq!(answers, vec![Some(20), None]);
}

#[test]
fn stale_rearm_request_leaves_the_alarm_disarmed() {
    let (mut driver, handle, fires, rearm) = driver_with_callback();
    // by the time the alarm fires, the requested deadline has already passed
    rearm.set(Some(3));
    assert!(driver.set_alarm(handle, 10));
    for _ in 0..100 {
        driver.on_interrupt();
    }
    assert_eq!(fires.get(), 1);
}

#[test]
fn deadline_exactly_one_ahead_fires_on_next_tick() {
    let (mut driver, handle, fires, _rearm) = driver_with_callback();
    assert!(driver.set_alarm(handle, 1));
    assert!(driver.on_interrupt().fired());
    assert_eq!(fires.get(), 1);
}

#[test]
fn unarmed_driver_never_fires() {
    let (mut driver, _handle, fires, _rearm) = driver_with_callback();
    for _ in 0..50 {
        assert!(!driver.on_interrupt().fired());
    }
    assert_eq!(fires.get(), 0);
}
