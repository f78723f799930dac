use platformer_core::animation::animation_tick;
use platformer_core::animation::AnimationNode;
use platformer_core::animation::FRAME_COUNT;
use platformer_core::timer::Timer;
use platformer_core::timer::TimerMode;

#[test]
fn frame_advances_one_per_interval_and_wraps() {
    let mut t = Timer::new(100, TimerMode::Repeating);
    let mut n = AnimationNode::new();
    assert_eq!(n.position, 0);

    let mut seen = Vec::new();
    for _ in 0..6 {
        let fired = animation_tick(&mut t, &mut n, 100);
        assert!(fired);
        seen.push(n.position);
    }
    // One step forward per interval, wrapping after the last frame.
    assert_eq!(seen, vec![1, 2, 3, 0, 1, 2]);
}

#[test]
fn frame_index_stays_in_bounds() {
    let mut t = Timer::new(100, TimerMode::Repeating);
    let mut n = AnimationNode::new();
    let deltas = [7u64, 100, 93, 250, 0, 99, 1, 100, 42];
    for d in deltas {
        animation_tick(&mut t, &mut n, d);
        assert!(n.position < FRAME_COUNT);
    }
}

#[test]
fn scenario_two_exact_intervals_step_one_two_three() {
    // Frame index goes 1 -> 2 -> 3 over two ticks of exactly the interval.
    let mut t = Timer::new(100, TimerMode::Repeating);
    let mut n = AnimationNode { position: 1 };

    let fired = animation_tick(&mut t, &mut n, 100);
    assert!(fired);
    assert_eq!(n.position, 2);

    let fired = animation_tick(&mut t, &mut n, 100);
    assert!(fired);
    assert_eq!(n.position, 3);
}

#[test]
fn no_advance_before_the_interval_elapses() {
    let mut t = Timer::new(100, TimerMode::Repeating);
    let mut n = AnimationNode::new();

    let fired = animation_tick(&mut t, &mut n, 99);
    assert!(!fired);
    assert_eq!(n.position, 0);

    let fired = animation_tick(&mut t, &mut n, 1);
    assert!(fired);
    assert_eq!(n.position, 1);
}

#[test]
fn long_tick_advances_a_single_frame() {
    // Several intervals inside one tick still move the frame only once,
    // exactly as the per-tick driver does.
    let mut t = Timer::new(100, TimerMode::Repeating);
    let mut n = AnimationNode::new();
    let fired = animation_tick(&mut t, &mut n, 350);
    assert!(fired);
    assert_eq!(n.position, 1);
    assert_eq!(t.elapsed_ms, 50);
}
