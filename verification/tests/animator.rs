use moho::animation::animator::{Animator, AnimatorData};
use moho::duration::Duration;

#[test]
fn animator_start() {
    let animator = AnimatorData::new(3, Duration::from_secs(5)).start();
    assert_eq!(animator.frame(), 0);
}

#[test]
fn animator_animate() {
    let mut animator = AnimatorData::new(6, Duration::from_secs(5)).start();

    let frame = animator.animate(Duration::from_secs(5));
    assert_eq!(frame, 1);

    let frame = animator.animate(Duration::from_secs(3));
    assert_eq!(frame, 1);

    let frame = animator.animate(Duration::from_secs(4));
    assert_eq!(frame, 2);

    let frame = animator.animate(Duration::from_secs(4));
    assert_eq!(frame, 3);

    let frame = animator.animate(Duration::from_secs(10));
    assert_eq!(frame, 5);

    assert_eq!(frame, animator.frame());
}

#[test]
fn animator_repeat() {
    let mut animator = AnimatorData::new(2, Duration::from_secs(2)).start();

    let frame = animator.animate(Duration::from_secs(2));
    assert_eq!(frame, 1);

    let frame = animator.animate(Duration::from_secs(3));
    assert_eq!(frame, 0);

    let frame = animator.animate(Duration::from_secs(1));
    assert_eq!(frame, 1);

    assert_eq!(frame, animator.frame());
}

#[test]
fn limit_run_start() {
    let animator = AnimatorData::new(2, Duration::from_secs(2)).limit_run_start(2);
    assert_eq!(animator.frame(), Some(0));
}

#[test]
fn animator_start_no_loops() {
    let animator = AnimatorData::new(2, Duration::from_secs(2)).limit_run_start(0);
    assert_eq!(animator.frame(), None);
}

#[test]
fn limit_stops() {
    let mut animator = AnimatorData::new(2, Duration::from_secs(2)).limit_run_start(2);

    let frame = animator.animate(Duration::from_secs(2));
    assert_eq!(frame, Some(1));

    let frame = animator.animate(Duration::from_secs(3));
    assert_eq!(frame, Some(0));

    let frame = animator.animate(Duration::from_secs(1));
    assert_eq!(frame, Some(1));

    let frame = animator.animate(Duration::from_secs(2));
    assert_eq!(frame, None);

    let frame = animator.animate(Duration::from_secs(2));
    assert_eq!(frame, None);
}

#[test]
fn animator_restart() {
    let mut animator = AnimatorData::new(2, Duration::from_secs(2)).limit_run_start(1);

    let frame = animator.animate(Duration::from_secs(5));
    assert_eq!(frame, None);

    animator.restart(2);

    let frame = animator.animate(Duration::from_secs(1));
    assert_eq!(frame, Some(0));

    let frame = animator.animate(Duration::from_secs(6));
    assert_eq!(frame, Some(1));

    let frame = animator.animate(Duration::from_secs(1));
    assert_eq!(frame, None);
}

#[test]
fn mod_animate() {
    let mut animator = Animator::new(6, Duration::from_secs(5));

    let frame = animator.animate(Duration::from_secs(5));
    assert_eq!(frame, 1);

    let frame = animator.animate(Duration::from_secs(3));
    assert_eq!(frame, 1);

    let frame = animator.animate(Duration::from_secs(4));
    assert_eq!(frame, 2);

    let frame = animator.animate(Duration::from_secs(4));
    assert_eq!(frame, 3);

    let frame = animator.animate(Duration::from_secs(10));
    assert_eq!(frame, 5);

    assert_eq!(frame, animator.frame());
}

#[test]
fn mod_repeat() {
    let mut animator = Animator::new(2, Duration::from_secs(2));

    let frame = animator.animate(Duration::from_secs(2));
    assert_eq!(frame, 1);

    let frame = animator.animate(Duration::from_secs(3));
    assert_eq!(frame, 0);

    let frame = animator.animate(Duration::from_secs(1));
    assert_eq!(frame, 1);

    assert_eq!(frame, animator.frame());
}

#[test]
fn mod_restart() {
    let mut animator = Animator::new(2, Duration::from_secs(2));

    let frame = animator.animate(Duration::from_secs(3));
    assert_eq!(frame, 1);

    animator.restart();
    assert_eq!(animator.frame(), 0);
    let frame = animator.animate(Duration::from_secs(1));
    assert_eq!(frame, 0);
    let frame = animator.animate(Duration::from_secs(1));
    assert_eq!(frame, 1);
}

#[test]
fn mod_start() {
    let data = AnimatorData::new(3, Duration::from_secs(5));
    assert_eq!(data.start().frame(), 0);
}
