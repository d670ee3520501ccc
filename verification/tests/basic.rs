use waitgroup::{DoneOutcome, PollOutcome, WaitGroup, WaitGroupGuard};

#[test]
fn basic_wait_group_wait0() {
    let mut wg = WaitGroup::new();
    let threads: usize = 10;
    assert_eq!(wg.left(), 0);
    wg.add(1);
    assert_eq!(wg.left(), 1);
    assert!(matches!(wg.done(), DoneOutcome::Quiet));
    assert_eq!(wg.left(), 0);
    for _i in 0..threads {
        wg.add(1);
    }
    // the workers are still running, so the wait has to suspend
    let mut fut = wg.wait().expect("count is above zero");
    assert!(matches!(fut.poll(&mut wg), PollOutcome::Pending));
    // each worker finishes in turn; the last one crosses the threshold
    for i in 0..threads {
        let out = wg.done();
        if i + 1 == threads {
            assert!(matches!(out, DoneOutcome::Wake));
        } else {
            assert!(matches!(out, DoneOutcome::Quiet));
        }
    }
    assert!(matches!(fut.poll(&mut wg), PollOutcome::Ready));
    assert_eq!(wg.left(), 0);
}

#[test]
fn basic_wait_group_waitto3() {
    let mut wg = WaitGroup::new();
    let threads: usize = 10;
    assert_eq!(wg.left(), 0);
    wg.add(1);
    assert_eq!(wg.left(), 1);
    assert!(matches!(wg.done(), DoneOutcome::Quiet));
    assert_eq!(wg.left(), 0);
    for _i in 0..threads {
        wg.add(1);
    }
    let mut fut = wg.wait_to(3).expect("count is above the target");
    assert!(matches!(fut.poll(&mut wg), PollOutcome::Pending));
    // workers finish one by one until the threshold is crossed
    let mut completed: bool = false;
    while wg.left() > 3 {
        let out = wg.done();
        if wg.left() <= 3 {
            assert!(matches!(out, DoneOutcome::Wake));
            assert!(matches!(fut.poll(&mut wg), PollOutcome::Ready));
            completed = true;
        } else {
            assert!(matches!(out, DoneOutcome::Quiet));
        }
    }
    assert!(completed);
    let left: usize = wg.left();
    assert!(left <= 3, "{}", left);
    println!("left {}", left);
    // the remaining workers finish after the wait completed
    while wg.left() > 0 {
        assert!(!matches!(wg.done(), DoneOutcome::Underflow));
    }
}

#[test]
fn basic_wait_group_multi_waitto_and_add() {
    let mut wg = WaitGroup::new();
    // due times of outstanding workers, oldest first
    let mut queue: Vec<u64> = Vec::new();
    for _i in 0u64..1000 {
        wg.add(1);
        queue.push(_i + (_i % 2) + 1);
        // workers whose delay has elapsed finish before the wait begins
        while !queue.is_empty() && queue[0] <= _i {
            queue.remove(0);
            assert!(!matches!(wg.done(), DoneOutcome::Underflow));
        }
        match wg.wait_to(10) {
            None => {
                assert!(wg.left() <= 10);
            }
            Some(mut fut) => {
                assert!(matches!(fut.poll(&mut wg), PollOutcome::Pending));
                while wg.left() > 10 {
                    queue.remove(0);
                    wg.done();
                }
                assert!(matches!(fut.poll(&mut wg), PollOutcome::Ready));
            }
        }
    }
    while !queue.is_empty() {
        queue.remove(0);
        assert!(!matches!(wg.done(), DoneOutcome::Underflow));
    }
    assert!(wg.wait().is_none());
    assert_eq!(wg.left(), 0);
    println!("done");
}

#[test]
fn basic_guard() {
    let mut wg = WaitGroup::new();
    let threads: usize = 10;
    assert_eq!(wg.left(), 0);
    wg.add(1);
    assert_eq!(wg.left(), 1);
    assert!(matches!(wg.done(), DoneOutcome::Quiet));
    assert_eq!(wg.left(), 0);
    let mut guards: Vec<WaitGroupGuard> = Vec::new();
    for _i in 0..threads {
        guards.push(wg.add_guard());
    }
    assert_eq!(wg.left(), threads);
    let mut fut = wg.wait_to(3).expect("count is above the target");
    assert!(matches!(fut.poll(&mut wg), PollOutcome::Pending));
    // guards release one by one until the threshold is crossed
    while wg.left() > 3 {
        let guard = guards.pop().expect("one guard per remaining unit");
        let out = guard.release(&mut wg);
        assert!(!matches!(out, DoneOutcome::Underflow));
        if wg.left() <= 3 {
            assert!(matches!(out, DoneOutcome::Wake));
            assert!(matches!(fut.poll(&mut wg), PollOutcome::Ready));
        }
    }
    let left: usize = wg.left();
    assert!(left <= 3, "{}", left);
    println!("left {}", left);
    // the remaining guards release after the wait completed
    while let Some(guard) = guards.pop() {
        assert!(!matches!(guard.release(&mut wg), DoneOutcome::Underflow));
    }
    assert_eq!(wg.left(), 0);
}
