use dragonfruitvoid::timer::{Countdown, NANOS_PER_SEC};

#[test]
fn one_shot_finishes_once_and_holds() {
    let mut c = Countdown::new_once(2 * NANOS_PER_SEC);
    c.tick(NANOS_PER_SEC);
    assert!(!c.finished());
    assert!(!c.just_finished());
    assert_eq!(c.elapsed_ns, NANOS_PER_SEC);
    assert_eq!(c.remaining_ns(), NANOS_PER_SEC);
    c.tick(3 * NANOS_PER_SEC);
    assert!(c.finished());
    assert!(c.just_finished());
    assert_eq!(c.elapsed_ns, 2 * NANOS_PER_SEC);
    assert_eq!(c.times_finished, 1);
    c.tick(NANOS_PER_SEC);
    assert!(c.finished());
    assert!(!c.just_finished());
    assert_eq!(c.elapsed_ns, 2 * NANOS_PER_SEC);
}

#[test]
fn zero_duration_finishes_on_first_tick() {
    let mut c = Countdown::new_once(0);
    assert!(!c.finished());
    c.tick(0);
    assert!(c.finished());
    assert!(c.just_finished());
}

#[test]
fn repeating_wraps_and_counts() {
    let mut c = Countdown::new_repeating(NANOS_PER_SEC);
    c.tick(2_500_000_000);
    assert!(c.finished());
    assert_eq!(c.times_finished, 2);
    assert_eq!(c.elapsed_ns, 500_000_000);
    c.tick(100_000_000);
    assert!(!c.finished());
    assert!(!c.just_finished());
    assert_eq!(c.elapsed_ns, 600_000_000);
}

#[test]
fn repeating_zero_duration_counts_max() {
    let mut c = Countdown::new_repeating(0);
    c.tick(5);
    assert!(c.finished());
    assert_eq!(c.times_finished, u32::MAX);
    assert_eq!(c.elapsed_ns, 0);
}

#[test]
fn reset_starts_over() {
    let mut c = Countdown::new_once(10);
    c.tick(20);
    assert!(c.finished());
    c.reset();
    assert!(!c.finished());
    assert_eq!(c.elapsed_ns, 0);
    assert_eq!(c.times_finished, 0);
    assert_eq!(c.duration_ns, 10);
}

#[test]
fn one_shot_ticks_add_up_example() {
    let mut a = Countdown::new_once(1000);
    a.tick(300);
    a.tick(400);
    let mut b = Countdown::new_once(1000);
    b.tick(700);
    assert_eq!(a.elapsed_ns, b.elapsed_ns);
    assert_eq!(a.finished(), b.finished());
}

#[test]
fn repeating_ticks_add_up_example() {
    let mut a = Countdown::new_repeating(1000);
    a.tick(800);
    a.tick(700);
    let mut b = Countdown::new_repeating(1000);
    b.tick(1500);
    assert_eq!(a.elapsed_ns, b.elapsed_ns);
    assert_eq!(a.elapsed_ns, 500);
}
