use yam::clock::{flicks_from_nanos, FrameClock, NANOS_PER_SECOND};
use yam::timer::FLICKS_PER_SECOND;

#[test]
fn one_second_is_all_the_flicks_of_a_second() {
    assert_eq!(flicks_from_nanos(NANOS_PER_SECOND as u128), FLICKS_PER_SECOND);
    assert_eq!(flicks_from_nanos(0), 0);
}

#[test]
fn flicks_are_rounded_down() {
    // One nanosecond is 0.7056 flicks, two are 1.4112.
    assert_eq!(flicks_from_nanos(1), 0);
    assert_eq!(flicks_from_nanos(2), 1);
    assert_eq!(flicks_from_nanos(10_000), 7_056);
    assert_eq!(flicks_from_nanos(16_666_667), 11_760_000);
}

#[test]
fn flicks_saturate() {
    assert_eq!(flicks_from_nanos(u128::MAX), u64::MAX);
    assert_eq!(flicks_from_nanos(1u128 << 65), u64::MAX);
    // The boundary: the last count of nanoseconds below `u64::MAX` flicks,
    // the first that gives it, and the first beyond it.
    assert_eq!(flicks_from_nanos(26_143_344_775_665_464_306), u64::MAX - 1);
    assert_eq!(flicks_from_nanos(26_143_344_775_665_464_307), u64::MAX);
    assert_eq!(flicks_from_nanos(26_143_344_775_665_464_309), u64::MAX);
}

#[test]
fn frame_clock_hands_out_the_time_between_frames() {
    let mut clock = FrameClock::start();
    assert_eq!(clock.step_to(100), 100);
    assert_eq!(clock.step_to(250), 150);
    assert_eq!(clock.step_to(250), 0);
}

#[test]
fn frame_clock_does_not_run_back() {
    let mut clock = FrameClock::start();
    assert_eq!(clock.step_to(500), 500);
    assert_eq!(clock.step_to(400), 0);
    assert_eq!(clock.step_to(600), 100);
}

#[test]
fn frame_clock_reads_the_machine_clock() {
    let mut clock = FrameClock::start();
    let mut total: u64 = 0;
    while total == 0 {
        total += clock.frame();
    }
    assert!(total > 0);
}
