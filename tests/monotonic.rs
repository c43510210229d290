use rtic_nrf_rtc::monotonic_nrf52_rtc::{MonoRtc, MIN_TICKS_FOR_COMPARE, TICK_HZ};
use rtic_nrf_rtc::rtc::{InstanceRtc, SimRtc, COUNTER_MASK, COUNTER_PERIOD};

const PERIOD_TICKS: u32 = 0x0100_0000;

/// An armed clock that has counted `wraps` wraps and whose counter reads `counter`.
fn clock_at(wraps: u32, counter: u32) -> MonoRtc<SimRtc> {
    let mut m = MonoRtc::new(SimRtc::new());
    m.reset();
    for _ in 0..wraps {
        m.rtc_mut().advance(PERIOD_TICKS);
        m.on_interrupt();
    }
    m.rtc_mut().advance(counter);
    m
}

#[test]
fn constants_match_hardware() {
    assert_eq!(TICK_HZ, 32_768);
    assert_eq!(COUNTER_MASK, 0x00ff_ffff);
    assert_eq!(COUNTER_PERIOD, 1 << 24);
    assert_eq!(MIN_TICKS_FOR_COMPARE, 3);
}

#[test]
fn new_sets_prescaler_to_pass_through() {
    let mut sim = SimRtc::new();
    sim.write_prescaler(7);
    assert_eq!(sim.registers().prescaler, 7);
    let m = MonoRtc::new(sim);
    assert_eq!(m.rtc().registers().prescaler, 0);
    assert!(!m.rtc().registers().running);
    assert_eq!(m.now(), 0);
}

#[test]
fn reset_arms_and_starts_counter() {
    let mut sim = SimRtc::new();
    sim.start();
    sim.advance(40);
    assert_eq!(sim.registers().counter, 40);
    let mut m = MonoRtc::new(sim);
    m.reset();
    let r = m.rtc().registers();
    assert_eq!(r.counter, 0);
    assert!(r.running);
    assert!(r.interrupts_enabled);
    assert!(r.events_enabled);
}

#[test]
fn stopped_counter_does_not_move() {
    let mut m = MonoRtc::new(SimRtc::new());
    m.rtc_mut().advance(100);
    assert_eq!(m.now(), 0);
}

#[test]
fn now_reads_raw_counter_before_first_wrap() {
    let mut m = clock_at(0, 10);
    let a = m.now();
    assert_eq!(a, 10);
    m.rtc_mut().advance(5);
    let b = m.now();
    assert_eq!(b, 15);
    m.rtc_mut().advance(0x00ff_0000);
    let c = m.now();
    assert_eq!(c, 0x00ff_000f);
    assert!(a <= b && b <= c);
    assert!(!m.is_overflow());
}

#[test]
fn pending_wrap_read_equals_handled_read() {
    let mut m = clock_at(0, 0x00ff_fff0);
    let before = m.now();
    m.rtc_mut().advance(0x20);
    assert!(m.is_overflow());
    let pending = m.now();
    assert_eq!(pending, 0x0100_0010);
    assert!(before < pending);
    m.on_interrupt();
    assert!(!m.is_overflow());
    assert_eq!(m.now(), pending);
}

#[test]
fn interrupt_counts_each_wrap_once() {
    let mut m = clock_at(0, 0x00ff_ffff);
    m.on_interrupt();
    assert_eq!(m.now(), 0x00ff_ffff);
    m.rtc_mut().advance(1);
    assert!(m.is_overflow());
    m.on_interrupt();
    assert_eq!(m.now(), 0x0100_0000);
    m.on_interrupt();
    assert_eq!(m.now(), 0x0100_0000);
    m.rtc_mut().advance(PERIOD_TICKS);
    m.on_interrupt();
    assert_eq!(m.now(), 0x0200_0000);
}

#[test]
fn clear_compare_flag_keeps_overflow_flag() {
    let mut m = clock_at(0, 0);
    m.set_compare(100);
    m.rtc_mut().advance(PERIOD_TICKS);
    assert!(m.rtc().registers().compare_event);
    assert!(m.is_overflow());
    m.clear_compare_flag();
    assert!(!m.rtc().registers().compare_event);
    assert!(m.is_overflow());
}

#[test]
fn zero_is_tick_zero() {
    assert_eq!(MonoRtc::<SimRtc>::zero(), 0);
}

#[test]
fn imminent_deadline_across_wrap() {
    let mut m = clock_at(5, 0x00ff_fffe);
    let now = m.now();
    assert_eq!(now, (5u64 << 24) | 0x00ff_fffe);
    let target = now + 1;
    m.set_compare(target);
    assert_eq!(m.rtc().registers().compare as u64, (target + 2) % (1 << 24));
    assert_eq!(m.rtc().registers().compare, 1);
}

#[test]
fn deadline_in_range_programs_target() {
    let mut m = clock_at(2, 0x10);
    let now = m.now();
    assert_eq!(now, (2u64 << 24) | 0x10);
    let target = now + 500;
    m.set_compare(target);
    assert_eq!(m.rtc().registers().compare as u64, target % (1 << 24));
    assert_eq!(m.rtc().registers().compare, 0x0204);
}

#[test]
fn deadline_beyond_one_period_programs_zero() {
    let mut m = clock_at(2, 0x10);
    m.set_compare(0x1234);
    let target = m.now() + (1 << 24) + 10;
    m.set_compare(target);
    assert_eq!(m.rtc().registers().compare, 0);
}

#[test]
fn overdue_deadline_programs_zero() {
    let mut m = clock_at(1, 0x100);
    let now = m.now();
    m.set_compare(0x55);
    m.set_compare(now);
    assert_eq!(m.rtc().registers().compare, 0);
    m.set_compare(0x55);
    m.set_compare(now - 1);
    assert_eq!(m.rtc().registers().compare, 0);
}

#[test]
fn imminent_deadline_gets_minimum_lead() {
    for delta in 1..=MIN_TICKS_FOR_COMPARE {
        let mut m = clock_at(0, 0x40);
        let now = m.now();
        m.set_compare(now + delta);
        assert_eq!(m.rtc().registers().compare, 0x43);
    }
}

#[test]
fn deadline_edges_of_window() {
    let mut m = clock_at(0, 0x40);
    let now = m.now();
    m.set_compare(now + 4);
    assert_eq!(m.rtc().registers().compare, 0x44);
    m.set_compare(now + 0x00ff_ffff);
    assert_eq!(m.rtc().registers().compare, 0x3f);
    m.set_compare(now + 0x0100_0000);
    assert_eq!(m.rtc().registers().compare, 0);
}

#[test]
fn match_fires_on_target_not_before() {
    let mut m = clock_at(3, 0x00ff_ff00);
    let target = m.now() + 500;
    m.set_compare(target);
    m.clear_compare_flag();
    m.rtc_mut().advance(499);
    assert!(!m.rtc().registers().compare_event);
    assert!(m.now() < target);
    m.rtc_mut().advance(1);
    assert!(m.rtc().registers().compare_event);
    assert_eq!(m.now(), target);
}

#[test]
fn imminent_match_fires_after_target() {
    let mut m = clock_at(0, 0x200);
    let target = m.now() + 1;
    m.set_compare(target);
    m.rtc_mut().advance(2);
    assert!(!m.rtc().registers().compare_event);
    m.rtc_mut().advance(1);
    assert!(m.rtc().registers().compare_event);
    assert_eq!(m.now(), target + 2);
}

#[test]
fn fallback_wakes_at_next_wrap() {
    let mut m = clock_at(0, 0x00ff_fff0);
    let target = m.now() + (1 << 24) + 10;
    m.set_compare(target);
    m.rtc_mut().advance(0x0f);
    assert!(!m.rtc().registers().compare_event);
    m.rtc_mut().advance(1);
    assert!(m.rtc().registers().compare_event);
    assert!(m.is_overflow());
}
