use chirperjax::{IdGen, Step, StepQueue, TICKS_PER_SECOND};

#[test]
fn step_queue_starts_one_period_in() {
    let q = StepQueue::new();
    assert_eq!(q.peek_specific(Step::Player), 5);
    assert_eq!(q.peek_specific(Step::Platform), 54);
    assert_eq!(q.peek_specific(Step::WarpEffectSpawn), 10);
    assert_eq!(q.peek_specific(Step::LasorFire), 300);
    assert_eq!(q.peek(), 5);
}

#[test]
fn step_periods_in_ticks() {
    assert_eq!(TICKS_PER_SECOND, 300);
    assert_eq!(Step::Player.period(), 5);
    assert_eq!(Step::Platform.period(), 54);
    assert_eq!(Step::WarpEffectSpawn.period(), 10);
    assert_eq!(Step::LasorFire.period(), 300);
}

#[test]
fn pop_reschedules_by_period_from_due_time() {
    let mut q = StepQueue::new();
    for _ in 0..1000 {
        let before = q.peek();
        let step = q.pop();
        let due_before = before;
        assert_eq!(q.peek_specific(step), due_before + step.period());
        assert!(q.peek() >= before);
    }
}

#[test]
fn pop_order_over_first_tenth_of_a_second() {
    let mut q = StepQueue::new();
    let mut seen = Vec::new();
    while q.peek() <= 30 {
        let t = q.peek();
        seen.push((t, q.pop()));
    }
    assert_eq!(
        seen,
        vec![
            (5, Step::Player),
            (10, Step::Player),
            (10, Step::WarpEffectSpawn),
            (15, Step::Player),
            (20, Step::Player),
            (20, Step::WarpEffectSpawn),
            (25, Step::Player),
            (30, Step::Player),
            (30, Step::WarpEffectSpawn),
        ]
    );
}

#[test]
fn tie_goes_to_earlier_kind() {
    let mut q = StepQueue::new();
    // at tick 270 the player (every 5), platform (every 54) and warp
    // effect (every 10) steps all fall due
    while q.peek() < 270 {
        q.pop();
    }
    assert_eq!(q.peek_specific(Step::Player), 270);
    assert_eq!(q.peek_specific(Step::Platform), 270);
    assert_eq!(q.peek_specific(Step::WarpEffectSpawn), 270);
    assert_eq!(q.pop(), Step::Player);
    assert_eq!(q.pop(), Step::Platform);
    assert_eq!(q.pop(), Step::WarpEffectSpawn);
    assert_eq!(q.pop(), Step::Player);
    assert_eq!(q.peek_specific(Step::Platform), 324);
}

#[test]
fn lasor_fires_once_a_second() {
    let mut q = StepQueue::new();
    let mut fires = Vec::new();
    while q.peek() <= 900 {
        let t = q.peek();
        if q.pop() == Step::LasorFire {
            fires.push(t);
        }
    }
    assert_eq!(fires, vec![300, 600, 900]);
}

#[test]
fn ids_are_issued_in_order() {
    let mut ids = IdGen::new();
    assert_eq!(ids.next(), 0);
    assert_eq!(ids.next(), 1);
    assert_eq!(ids.next(), 2);
}
