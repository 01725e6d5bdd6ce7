//! The load area: the cache of currently loaded chunks, a map from
//! chunk position to that chunk's latest snapshot.

use vstd::prelude::*;

use crate::chunk::Chunk;
use crate::math::IVec3;

verus! {

/// Currently loaded chunks, keyed by chunk position.
#[derive(Debug)]
pub struct LoadArea {
    entries: Vec<(IVec3, Chunk)>,
}

impl View for LoadArea {
    type V = Map<IVec3, Chunk>;

    /// The area as a map from position to chunk snapshot.
    closed spec fn view(&self) -> Map<IVec3, Chunk> {
        Map::new(
            |k: IVec3|
                exists|i: int| 0 <= i < self.entries@.len() && (#[trigger] self.entries@[i]).0 == k,
            |k: IVec3|
                {
                    let i = choose|i: int|
                        0 <= i < self.entries@.len() && (#[trigger] self.entries@[i]).0 == k;
                    self.entries@[i].1
                },
        )
    }
}

impl LoadArea {
    /// Every position occurs at most once.
    pub closed spec fn wf(&self) -> bool {
        forall|i: int, j: int|
            0 <= i < j < self.entries@.len() ==> (#[trigger] self.entries@[i]).0 != (
            #[trigger] self.entries@[j]).0
    }

    pub fn new() -> (r: LoadArea)
        ensures
            r.wf(),
            r@ == Map::<IVec3, Chunk>::empty(),
    {
        let r = LoadArea { entries: Vec::new() };
        proof {
            assert(r@ =~= Map::<IVec3, Chunk>::empty());
        }
        r
    }

    /// Index of the entry that maps `pos`, if any.
    fn find_index(&self, pos: &IVec3) -> (r: Option<usize>)
        requires
            self.wf(),
        ensures
            match r {
                Some(i) => i < self.entries@.len() && self.entries@[i as int].0 == *pos,
                None => forall|j: int|
                    0 <= j < self.entries@.len() ==> (#[trigger] self.entries@[j]).0 != *pos,
            },
    {
        let n = self.entries.len();
        let mut i: usize = 0;
        while i < n
            invariant
                n == self.entries@.len(),
                0 <= i <= n,
                forall|j: int| 0 <= j < i ==> (#[trigger] self.entries@[j]).0 != *pos,
            decreases n - i,
        {
            if self.entries[i].0 == *pos {
                return Some(i);
            }
            i = i + 1;
        }
        None
    }

    /// Maps `pos` to `chunk`, replacing any previous snapshot for that
    /// position.
    pub fn insert(&mut self, pos: IVec3, chunk: Chunk)
        requires
            old(self).wf(),
        ensures
            final(self).wf(),
            final(self)@ == old(self)@.insert(pos, chunk),
    {
        let ghost oldm = self@;
        match self.find_index(&pos) {
            Some(i) => {
                self.entries[i] = (pos, chunk);
                proof {
                    let ghost es = self.entries@;
                    let ghost os = old(self).entries@;
                    assert forall|a: int, b: int| 0 <= a < b < es.len() implies (
                    #[trigger] es[a]).0 != (#[trigger] es[b]).0 by {
                        assert(os[a].0 != os[b].0);
                    }
                    assert forall|k: IVec3| #[trigger]
                        self@.contains_key(k) == oldm.insert(pos, chunk).contains_key(k) && (
                        self@.contains_key(k) ==> self@[k] == oldm.insert(pos, chunk)[k]) by {
                        if k == pos {
                            assert(0 <= i < es.len() && es[i as int].0 == k);
                            let w = choose|w: int| 0 <= w < es.len() && (#[trigger] es[w]).0 == k;
                            assert(w == i);
                        } else {
                            if exists|a: int| 0 <= a < os.len() && (#[trigger] os[a]).0 == k {
                                let a = choose|a: int|
                                    0 <= a < os.len() && (#[trigger] os[a]).0 == k;
                                assert(es[a].0 == k);
                                let w = choose|w: int|
                                    0 <= w < es.len() && (#[trigger] es[w]).0 == k;
                                assert(os[w].0 == k);
                                assert(w == a);
                            } else {
                                assert(forall|a: int|
                                    0 <= a < es.len() ==> (#[trigger] es[a]).0 != k) by {
                                    assert(forall|a: int|
                                        0 <= a < os.len() && a != i ==> (#[trigger] os[a]).0 != k);
                                }
                            }
                        }
                    }
                    assert(self@ =~= oldm.insert(pos, chunk));
                }
            },
            None => {
                self.entries.push((pos, chunk));
                proof {
                    let ghost es = self.entries@;
                    let ghost os = old(self).entries@;
                    assert(es =~= os.push((pos, chunk)));
                    assert forall|a: int, b: int| 0 <= a < b < es.len() implies (
                    #[trigger] es[a]).0 != (#[trigger] es[b]).0 by {
                        if b < os.len() {
                            assert(os[a].0 != os[b].0);
                        } else {
                            assert(es[b].0 == pos);
                            assert(os[a].0 != pos);
                        }
                    }
                    assert forall|k: IVec3| #[trigger]
                        self@.contains_key(k) == oldm.insert(pos, chunk).contains_key(k) && (
                        self@.contains_key(k) ==> self@[k] == oldm.insert(pos, chunk)[k]) by {
                        if k == pos {
                            assert(es[es.len() - 1].0 == k);
                            let w = choose|w: int| 0 <= w < es.len() && (#[trigger] es[w]).0 == k;
                            assert(w == es.len() - 1);
                        } else {
                            if exists|a: int| 0 <= a < os.len() && (#[trigger] os[a]).0 == k {
                                let a = choose|a: int|
                                    0 <= a < os.len() && (#[trigger] os[a]).0 == k;
                                assert(es[a].0 == k);
                                let w = choose|w: int|
                                    0 <= w < es.len() && (#[trigger] es[w]).0 == k;
                                assert(w == a);
                            } else {
                                assert(forall|a: int|
                                    0 <= a < es.len() ==> (#[trigger] es[a]).0 != k);
                            }
                        }
                    }
                    assert(self@ =~= oldm.insert(pos, chunk));
                }
            },
        }
    }

    /// Drops the snapshot for `pos`, if one is loaded.
    pub fn remove(&mut self, pos: &IVec3)
        requires
            old(self).wf(),
        ensures
            final(self).wf(),
            final(self)@ == old(self)@.remove(*pos),
    {
        let ghost oldm = self@;
        match self.find_index(pos) {
            Some(i) => {
                self.entries.remove(i);
                proof {
                    let ghost es = self.entries@;
                    let ghost os = old(self).entries@;
                    assert forall|a: int, b: int| 0 <= a < b < es.len() implies (
                    #[trigger] es[a]).0 != (#[trigger] es[b]).0 by {
                        let a0 = if a < i {
                            a
                        } else {
                            a + 1
                        };
                        let b0 = if b < i {
                            b
                        } else {
                            b + 1
                        };
                        assert(es[a] == os[a0] && es[b] == os[b0]);
                        assert(os[a0].0 != os[b0].0);
                    }
                    assert forall|k: IVec3| #[trigger]
                        self@.contains_key(k) == oldm.remove(*pos).contains_key(k) && (
                        self@.contains_key(k) ==> self@[k] == oldm.remove(*pos)[k]) by {
                        if k == *pos {
                            assert forall|a: int| 0 <= a < es.len() implies (
                            #[trigger] es[a]).0 != k by {
                                let a0 = if a < i {
                                    a
                                } else {
                                    a + 1
                                };
                                assert(es[a] == os[a0]);
                                assert(a0 != i ==> os[a0].0 != os[i as int].0);
                            }
                        } else {
                            if exists|a: int| 0 <= a < os.len() && (#[trigger] os[a]).0 == k {
                                let a = choose|a: int|
                                    0 <= a < os.len() && (#[trigger] os[a]).0 == k;
                                let a1 = if a < i {
                                    a
                                } else {
                                    a - 1
                                };
                                assert(a != i);
                                assert(es[a1] == os[a]);
                                assert(es[a1].0 == k);
                                let w = choose|w: int|
                                    0 <= w < es.len() && (#[trigger] es[w]).0 == k;
                                let w0 = if w < i {
                                    w
                                } else {
                                    w + 1
                                };
                                assert(es[w] == os[w0]);
                                assert(w0 == a);
                                assert(w == a1);
                            } else {
                                assert forall|a: int| 0 <= a < es.len() implies (
                                #[trigger] es[a]).0 != k by {
                                    let a0 = if a < i {
                                        a
                                    } else {
                                        a + 1
                                    };
                                    assert(es[a] == os[a0]);
                                }
                            }
                        }
                    }
                    assert(self@ =~= oldm.remove(*pos));
                }
            },
            None => {
                proof {
                    assert(!oldm.contains_key(*pos));
                    assert(self@ =~= oldm.remove(*pos));
                }
            },
        }
    }

    /// The snapshot loaded for `pos`, if any.
    pub fn get(&self, pos: &IVec3) -> (r: Option<&Chunk>)
        requires
            self.wf(),
        ensures
            match r {
                Some(c) => self@.contains_key(*pos) && *c == self@[*pos],
                None => !self@.contains_key(*pos),
            },
    {
        match self.find_index(pos) {
            Some(i) => {
                proof {
                    let ghost es = self.entries@;
                    assert(0 <= i < es.len() && es[i as int].0 == *pos);
                    let w = choose|w: int| 0 <= w < es.len() && (#[trigger] es[w]).0 == *pos;
                    assert(w == i);
                }
                Some(&self.entries[i].1)
            },
            None => None,
        }
    }
}

} // verus!
