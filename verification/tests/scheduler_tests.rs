use voxel_core::math::IVec3;
use voxel_core::scheduler::{area_positions, Scheduler, GENERATOR_MAX_TASKS, MESHER_MAX_TASKS};

#[test]
fn configured_caps_match_the_two_instances() {
    assert_eq!(GENERATOR_MAX_TASKS, 32);
    assert_eq!(MESHER_MAX_TASKS, 16);
}

#[test]
fn in_flight_never_exceeds_the_cap() {
    let mut sched = Scheduler::new(MESHER_MAX_TASKS);
    for k in 0..100 {
        sched.push(IVec3::new(k, 0, 0));
    }
    let mut started = Vec::new();
    // fill to capacity
    while let Some(pos) = sched.dequeue() {
        sched.begin(pos);
        started.push(pos);
        assert!(sched.load().0 as usize <= MESHER_MAX_TASKS);
    }
    assert_eq!(sched.load().0 as usize, MESHER_MAX_TASKS);
    assert_eq!(sched.load().1 as usize, 100 - MESHER_MAX_TASKS);
    // capacity exhausted: nothing more may start
    assert!(sched.dequeue().is_none());

    // harvesting frees capacity; every coordinate is serviced exactly once
    while sched.load().0 > 0 || sched.load().1 > 0 {
        let in_flight: Vec<IVec3> = started
            [started.len() - sched.load().0 as usize..]
            .to_vec();
        for pos in in_flight {
            assert!(sched.finish(pos));
        }
        while let Some(pos) = sched.dequeue() {
            sched.begin(pos);
            started.push(pos);
            assert!(sched.load().0 as usize <= MESHER_MAX_TASKS);
        }
    }
    assert_eq!(started.len(), 100);
    let mut sorted: Vec<i32> = started.iter().map(|p| p.x).collect();
    sorted.sort();
    let expected: Vec<i32> = (0..100).collect();
    assert_eq!(sorted, expected, "each enqueue serviced exactly once");
}

#[test]
fn area_positions_walk_the_cube_once_each() {
    let positions = area_positions(1);
    assert_eq!(positions.len(), 27);
    assert_eq!(positions[0], IVec3::new(-1, -1, -1));
    assert_eq!(positions[1], IVec3::new(-1, -1, 0));
    assert_eq!(positions[3], IVec3::new(-1, 0, -1));
    assert_eq!(positions[9], IVec3::new(0, -1, -1));
    assert_eq!(positions[26], IVec3::new(1, 1, 1));
    for x in -1..=1 {
        for y in -1..=1 {
            for z in -1..=1 {
                let p = IVec3::new(x, y, z);
                assert_eq!(positions.iter().filter(|&&q| q == p).count(), 1);
            }
        }
    }
}

#[test]
fn dequeue_is_fifo() {
    let mut sched = Scheduler::new(4);
    sched.push(IVec3::new(1, 0, 0));
    sched.push(IVec3::new(2, 0, 0));
    sched.push(IVec3::new(3, 0, 0));
    assert_eq!(sched.dequeue(), Some(IVec3::new(1, 0, 0)));
    assert_eq!(sched.dequeue(), Some(IVec3::new(2, 0, 0)));
    assert_eq!(sched.dequeue(), Some(IVec3::new(3, 0, 0)));
    assert_eq!(sched.dequeue(), None);
}

#[test]
fn requeue_defers_to_a_later_pass() {
    let mut sched = Scheduler::new(4);
    sched.push(IVec3::new(1, 0, 0));
    sched.push(IVec3::new(2, 0, 0));
    let first = sched.dequeue().unwrap();
    // its prerequisites are not ready: push it back instead of starting
    sched.requeue(first);
    assert_eq!(sched.dequeue(), Some(IVec3::new(2, 0, 0)));
    assert_eq!(sched.dequeue(), Some(IVec3::new(1, 0, 0)));
}

#[test]
fn finish_reports_whether_the_task_was_in_flight() {
    let mut sched = Scheduler::new(2);
    sched.push(IVec3::new(7, 7, 7));
    let pos = sched.dequeue().unwrap();
    sched.begin(pos);
    assert!(!sched.finish(IVec3::new(0, 0, 0)));
    assert!(sched.finish(pos));
    assert!(!sched.finish(pos), "a completed task frees its slot once");
    assert_eq!(sched.load(), (0, 0));
}
