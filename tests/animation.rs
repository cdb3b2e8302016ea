use rs_calc::animation::Animated;

fn is_done(a: &Animated<i32>) -> bool {
    matches!(a, Animated::Done(_))
}

#[test]
fn done_to_holds_target() {
    let a = Animated::done_to(42i32);
    assert!(matches!(a, Animated::Done(42)));
    assert_eq!(a.value(), 42);
}

#[test]
fn animate_to_from_done_starts_at_resting_value() {
    let a = Animated::done_to(5i32);
    let b = a.animate_to(20, 3);
    assert!(matches!(b, Animated::Animating(5, 20, 3)));
}

#[test]
fn animate_to_from_animating_restarts_from_current_value() {
    let a = Animated::Animating(7i32, 100, 2);
    let b = a.animate_to(-4, -1);
    assert!(matches!(b, Animated::Animating(7, -4, -1)));
}

#[test]
fn ensure_frame_advances_by_rate_times_steps() {
    let mut a = Animated::Animating(0i32, 10, 3);
    assert_eq!(*a.ensure_frame(1), 3);
    assert_eq!(*a.ensure_frame(2), 9);
    assert!(matches!(a, Animated::Animating(9, 10, 3)));
}

#[test]
fn ensure_frame_settles_on_value_before_overshoot() {
    let mut a = Animated::Animating(9i32, 10, 3);
    assert_eq!(*a.ensure_frame(1), 9);
    assert!(matches!(a, Animated::Done(9)));
}

#[test]
fn ensure_frame_settles_when_landing_on_target() {
    let mut a = Animated::Animating(4i32, 10, 3);
    assert_eq!(*a.ensure_frame(2), 4);
    assert!(matches!(a, Animated::Done(4)));
}

#[test]
fn ensure_frame_with_negative_rate() {
    let mut a = Animated::Animating(10i32, 0, -4);
    assert_eq!(*a.ensure_frame(1), 6);
    assert_eq!(*a.ensure_frame(1), 2);
    assert_eq!(*a.ensure_frame(1), 2);
    assert!(matches!(a, Animated::Done(2)));
}

#[test]
fn ensure_frame_zero_rate_settles_at_once() {
    let mut a = Animated::Animating(3i32, 10, 0);
    assert_eq!(*a.ensure_frame(5), 3);
    assert!(matches!(a, Animated::Done(3)));
}

#[test]
fn ensure_frame_zero_steps_keeps_value() {
    let mut a = Animated::Animating(3i32, 10, 2);
    assert_eq!(*a.ensure_frame(0), 3);
    assert!(matches!(a, Animated::Animating(3, 10, 2)));
}

#[test]
fn ensure_frame_rate_away_from_target_settles_at_once() {
    let mut a = Animated::Animating(0i32, 10, -1);
    assert_eq!(*a.ensure_frame(1), 0);
    assert!(matches!(a, Animated::Done(0)));
}

#[test]
fn ensure_frame_on_done_changes_nothing() {
    let mut a = Animated::done_to(8i32);
    assert_eq!(*a.ensure_frame(1000), 8);
    assert!(matches!(a, Animated::Done(8)));
}

#[test]
fn ensure_frame_extreme_values_do_not_overflow() {
    let mut a = Animated::Animating(i32::MAX - 1, i32::MAX, i32::MAX);
    assert_eq!(*a.ensure_frame(u32::MAX), i32::MAX - 1);
    assert!(matches!(a, Animated::Done(v) if v == i32::MAX - 1));

    let mut b = Animated::Animating(i32::MIN + 10, i32::MIN, i32::MIN);
    assert_eq!(*b.ensure_frame(u32::MAX), i32::MIN + 10);
    assert!(is_done(&b));

    let mut c = Animated::Animating(i32::MIN, i32::MAX, 1);
    assert_eq!(*c.ensure_frame(10), i32::MIN + 10);
}

#[test]
fn repeated_frames_settle_within_one_step_of_target() {
    let cases: [(i32, i32, i32, u32); 5] =
        [(0, 100, 7, 1), (0, 100, 7, 3), (50, -50, -9, 2), (0, 1, 1, 1), (-20, 20, 40, 1)];
    for (start, target, rate, steps) in cases {
        let mut a = Animated::Animating(start, target, rate);
        let mut frames = 0;
        while !is_done(&a) {
            a.ensure_frame(steps);
            frames += 1;
            assert!(frames <= (target - start).abs() + 1);
        }
        let settled = a.value();
        assert!((target - settled).abs() <= rate.abs() * steps as i32);
    }
}
