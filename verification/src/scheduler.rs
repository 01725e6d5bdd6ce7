//! Bounded-concurrency scheduling state: a FIFO of pending chunk
//! coordinates and the set of coordinates whose background computation
//! is in flight. The surrounding runtime performs the computations; the
//! decisions of what may start live here.

use vstd::prelude::*;

use crate::math::IVec3;

verus! {

use vstd::arithmetic::div_mod::lemma_multiply_divide_lt;

/// The position seeded `k`-th for a cubic area of half-width `range`:
/// x varies slowest, then y, then z.
pub open spec fn spec_area_pos(range: int, k: int) -> IVec3 {
    let side = 2 * range + 1;
    IVec3 {
        x: (k / (side * side) - range) as i32,
        y: ((k / side) % side - range) as i32,
        z: (k % side - range) as i32,
    }
}

/// Every chunk position of the cubic area of half-width `range`, each
/// exactly once, in the order the schedulers are seeded with them.
pub fn area_positions(range: i32) -> (r: Vec<IVec3>)
    requires
        0 <= range <= 100,
    ensures
        r@.len() == (2 * range + 1) * (2 * range + 1) * (2 * range + 1),
        forall|k: int| 0 <= k < r@.len() ==> #[trigger] r@[k] == spec_area_pos(range as int, k),
{
    let side: usize = (2 * range + 1) as usize;
    proof {
        assert(side * side <= 40401 && side * side * side <= 8120601) by (nonlinear_arith)
            requires
                side <= 201,
        ;
    }
    let total: usize = side * side * side;
    let mut r: Vec<IVec3> = Vec::new();
    let mut k: usize = 0;
    while k < total
        invariant
            0 <= range <= 100,
            side == 2 * range + 1,
            total == side * side * side,
            0 <= k <= total,
            r@.len() == k,
            forall|j: int| 0 <= j < k ==> #[trigger] r@[j] == spec_area_pos(range as int, j),
        decreases total - k,
    {
        proof {
            assert(side * side <= 40401) by (nonlinear_arith)
                requires
                    side <= 201,
            ;
            assert(0 < side * side && k < (side * side) * side && k < side * (side * side))
                by (nonlinear_arith)
                requires
                    1 <= side,
                    k < total,
                    total == side * side * side,
            ;
            lemma_multiply_divide_lt(k as int, (side * side) as int, side as int);
            lemma_multiply_divide_lt(k as int, side as int, (side * side) as int);
        }
        let x = (k / (side * side)) as i32 - range;
        let y = ((k / side) % side) as i32 - range;
        let z = (k % side) as i32 - range;
        r.push(IVec3::new(x, y, z));
        k = k + 1;
    }
    r
}

/// Concurrent task cap of the generation scheduler.
pub const GENERATOR_MAX_TASKS: usize = 32;

/// Concurrent task cap of the meshing scheduler.
pub const MESHER_MAX_TASKS: usize = 16;

/// Pending and in-flight coordinates of one scheduler instance.
#[derive(Debug)]
pub struct Scheduler {
    pub queue: Vec<IVec3>,
    pub active: Vec<IVec3>,
    pub max_tasks: usize,
}

impl Scheduler {
    /// The coordinate is waiting in the pending queue.
    pub open spec fn spec_queued(&self, pos: IVec3) -> bool {
        self.queue@.contains(pos)
    }

    /// The coordinate's computation is in flight.
    pub open spec fn spec_active(&self, pos: IVec3) -> bool {
        self.active@.contains(pos)
    }

    /// Number of computations in flight.
    pub open spec fn spec_in_flight(&self) -> int {
        self.active@.len() as int
    }

    /// The capacity bound and the single-start discipline: never more
    /// in-flight tasks than the cap, no coordinate in flight twice, no
    /// coordinate queued twice, and no coordinate both queued and in
    /// flight.
    pub open spec fn wf(&self) -> bool {
        &&& self.active@.len() <= self.max_tasks
        &&& forall|i: int, j: int|
            0 <= i < j < self.active@.len() ==> self.active@[i] != self.active@[j]
        &&& forall|i: int, j: int|
            0 <= i < j < self.queue@.len() ==> self.queue@[i] != self.queue@[j]
        &&& forall|i: int, j: int|
            0 <= i < self.queue@.len() && 0 <= j < self.active@.len() ==> self.queue@[i]
                != self.active@[j]
    }

    /// An idle scheduler with the given concurrent task cap.
    pub fn new(max_tasks: usize) -> (r: Scheduler)
        ensures
            r.wf(),
            r.max_tasks == max_tasks,
            r.queue@ == Seq::<IVec3>::empty(),
            r.active@ == Seq::<IVec3>::empty(),
    {
        Scheduler { queue: Vec::new(), active: Vec::new(), max_tasks }
    }

    /// Appends a coordinate to the pending queue. A coordinate is
    /// enqueued at most once while it is anywhere in the scheduler.
    pub fn push(&mut self, pos: IVec3)
        requires
            old(self).wf(),
            !old(self).spec_queued(pos),
            !old(self).spec_active(pos),
        ensures
            final(self).wf(),
            final(self).max_tasks == old(self).max_tasks,
            final(self).queue@ == old(self).queue@.push(pos),
            final(self).active@ == old(self).active@,
    {
        proof {
            let q = old(self).queue@;
            assert forall|i: int| 0 <= i < q.len() implies q[i] != pos by {
                assert(q.contains(q[i]));
            }
        }
        self.queue.push(pos);
    }

    /// Takes the next coordinate off the queue when capacity is free:
    /// the front of the queue, exactly when something is pending and
    /// fewer computations than the cap are in flight.
    pub fn dequeue(&mut self) -> (r: Option<IVec3>)
        requires
            old(self).wf(),
        ensures
            final(self).wf(),
            final(self).max_tasks == old(self).max_tasks,
            final(self).active@ == old(self).active@,
            match r {
                Some(p) => {
                    &&& old(self).queue@.len() > 0
                    &&& old(self).spec_in_flight() < old(self).max_tasks
                    &&& p == old(self).queue@[0]
                    &&& final(self).queue@ == old(self).queue@.skip(1)
                    &&& !old(self).spec_active(p)
                    &&& !final(self).spec_queued(p)
                },
                None => {
                    &&& final(self).queue@ == old(self).queue@
                    &&& (old(self).queue@.len() == 0 || old(self).spec_in_flight() >= old(
                        self,
                    ).max_tasks)
                },
            },
    {
        if self.queue.len() == 0 || self.active.len() >= self.max_tasks {
            return None;
        }
        let p = self.queue.remove(0);
        proof {
            let q = old(self).queue@;
            assert(self.queue@ =~= q.skip(1));
            assert(!old(self).spec_active(p)) by {
                assert forall|j: int| 0 <= j < old(self).active@.len() implies old(
                    self,
                ).active@[j] != p by {
                    assert(q[0] != old(self).active@[j]);
                }
                if old(self).active@.contains(p) {
                    let j = choose|j: int|
                        0 <= j < old(self).active@.len() && old(self).active@[j] == p;
                }
            }
            assert(!self.spec_queued(p)) by {
                if self.queue@.contains(p) {
                    let j = choose|j: int| 0 <= j < self.queue@.len() && self.queue@[j] == p;
                    assert(q[j + 1] == p && q[0] == p);
                }
            }
        }
        Some(p)
    }

    /// Marks a coordinate's computation as started. Capacity must be
    /// free and the coordinate must not already be in flight: one
    /// coordinate never runs twice concurrently.
    pub fn begin(&mut self, pos: IVec3)
        requires
            old(self).wf(),
            !old(self).spec_active(pos),
            !old(self).spec_queued(pos),
            old(self).spec_in_flight() < old(self).max_tasks,
        ensures
            final(self).wf(),
            final(self).max_tasks == old(self).max_tasks,
            final(self).queue@ == old(self).queue@,
            final(self).active@ == old(self).active@.push(pos),
            final(self).spec_in_flight() == old(self).spec_in_flight() + 1,
    {
        proof {
            let a = old(self).active@;
            let q = old(self).queue@;
            assert forall|i: int| 0 <= i < a.len() implies a[i] != pos by {
                assert(a.contains(a[i]));
            }
            assert forall|i: int| 0 <= i < q.len() implies q[i] != pos by {
                assert(q.contains(q[i]));
            }
        }
        self.active.push(pos);
    }

    /// Puts a dequeued coordinate back at the end of the queue, to be
    /// tried again on a later pass.
    pub fn requeue(&mut self, pos: IVec3)
        requires
            old(self).wf(),
            !old(self).spec_queued(pos),
            !old(self).spec_active(pos),
        ensures
            final(self).wf(),
            final(self).max_tasks == old(self).max_tasks,
            final(self).queue@ == old(self).queue@.push(pos),
            final(self).active@ == old(self).active@,
    {
        self.push(pos);
    }

    /// Marks a coordinate's computation as completed, freeing its
    /// capacity. Reports whether the coordinate was in flight at all.
    pub fn finish(&mut self, pos: IVec3) -> (r: bool)
        requires
            old(self).wf(),
        ensures
            final(self).wf(),
            final(self).max_tasks == old(self).max_tasks,
            final(self).queue@ == old(self).queue@,
            r == old(self).spec_active(pos),
            r ==> {
                &&& final(self).spec_in_flight() + 1 == old(self).spec_in_flight()
                &&& !final(self).spec_active(pos)
                &&& forall|p: IVec3|
                    p != pos ==> #[trigger] final(self).spec_active(p) == old(self).spec_active(p)
            },
            !r ==> final(self).active@ == old(self).active@,
    {
        let ghost a = self.active@;
        let n = self.active.len();
        let mut i: usize = 0;
        while i < n
            invariant
                self.wf(),
                n == a.len(),
                a == self.active@,
                a == old(self).active@,
                self.queue@ == old(self).queue@,
                self.max_tasks == old(self).max_tasks,
                0 <= i <= n,
                forall|j: int| 0 <= j < i ==> a[j] != pos,
            decreases n - i,
        {
            if self.active[i] == pos {
                self.active.remove(i);
                proof {
                    let es = self.active@;
                    assert(a[i as int] == pos);
                    assert(a.contains(a[i as int]));
                    assert(old(self).spec_active(pos));
                    assert(es == a.remove(i as int));
                    assert(es.len() + 1 == a.len());
                    assert forall|x: int, y: int| 0 <= x < y < es.len() implies es[x] != es[y] by {
                        let x0 = if x < i {
                            x
                        } else {
                            x + 1
                        };
                        let y0 = if y < i {
                            y
                        } else {
                            y + 1
                        };
                        assert(es[x] == a[x0] && es[y] == a[y0]);
                    }
                    assert forall|x: int, y: int|
                        0 <= x < self.queue@.len() && 0 <= y < es.len() implies self.queue@[x]
                        != es[y] by {
                        let y0 = if y < i {
                            y
                        } else {
                            y + 1
                        };
                        assert(es[y] == a[y0]);
                    }
                    assert(!self.spec_active(pos)) by {
                        if es.contains(pos) {
                            let j = choose|j: int| 0 <= j < es.len() && es[j] == pos;
                            let j0 = if j < i {
                                j
                            } else {
                                j + 1
                            };
                            assert(es[j] == a[j0]);
                            assert(a[i as int] == pos && a[j0] == pos);
                        }
                    }
                    assert forall|p: IVec3| p != pos implies #[trigger] self.spec_active(p) == (
                    a.contains(p)) by {
                        if es.contains(p) {
                            let j = choose|j: int| 0 <= j < es.len() && es[j] == p;
                            let j0 = if j < i {
                                j
                            } else {
                                j + 1
                            };
                            assert(es[j] == a[j0]);
                            assert(a.contains(a[j0]));
                        }
                        if a.contains(p) {
                            let j = choose|j: int| 0 <= j < a.len() && a[j] == p;
                            assert(j != i);
                            let j1 = if j < i {
                                j
                            } else {
                                j - 1
                            };
                            assert(es[j1] == a[j]);
                            assert(es.contains(es[j1]));
                        }
                    }
                }
                return true;
            }
            i = i + 1;
        }
        proof {
            if a.contains(pos) {
                let j = choose|j: int| 0 <= j < a.len() && a[j] == pos;
            }
        }
        false
    }

    /// Load report: computations in flight and coordinates pending.
    pub fn load(&self) -> (r: (u32, u32))
        requires
            self.active@.len() <= u32::MAX,
            self.queue@.len() <= u32::MAX,
        ensures
            r.0 == self.active@.len(),
            r.1 == self.queue@.len(),
    {
        (self.active.len() as u32, self.queue.len() as u32)
    }

    /// The capacity law: a well-formed scheduler never has more
    /// computations in flight than its configured maximum, whatever
    /// sequence of operations produced it.
    pub proof fn lemma_capacity_bound(&self)
        requires
            self.wf(),
        ensures
            self.spec_in_flight() <= self.max_tasks,
    {
    }
}

} // verus!
