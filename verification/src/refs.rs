//! Chunk neighborhood resolution: a read-only bundle of one target
//! chunk and its six face neighbors, letting block queries cross chunk
//! seams.

use vstd::prelude::*;

use crate::area::LoadArea;
use crate::chunk::{Chunk, SIZE_I32, SIZE, SIZE_P3, spec_block_at, spec_block_index};
use crate::math::IVec3;

verus! {

/// Neighbor offset `n` of the bundle, in chunk coordinates. Order:
/// current, down, up, left, right, forward, back.
pub open spec fn spec_offset(n: int) -> IVec3 {
    if n == 0 {
        IVec3 { x: 0, y: 0, z: 0 }
    } else if n == 1 {
        IVec3 { x: 0, y: -1i32, z: 0 }
    } else if n == 2 {
        IVec3 { x: 0, y: 1, z: 0 }
    } else if n == 3 {
        IVec3 { x: -1i32, y: 0, z: 0 }
    } else if n == 4 {
        IVec3 { x: 1, y: 0, z: 0 }
    } else if n == 5 {
        IVec3 { x: 0, y: 0, z: -1i32 }
    } else {
        IVec3 { x: 0, y: 0, z: 1 }
    }
}

/// Whether `v` is one of the seven neighbor offsets.
pub open spec fn spec_is_offset(v: IVec3) -> bool {
    exists|n: int| 0 <= n < 7 && v == spec_offset(n)
}

/// The position of `v` among the seven neighbor offsets.
pub open spec fn spec_offset_index(v: IVec3) -> int {
    if v == spec_offset(0) {
        0
    } else if v == spec_offset(1) {
        1
    } else if v == spec_offset(2) {
        2
    } else if v == spec_offset(3) {
        3
    } else if v == spec_offset(4) {
        4
    } else if v == spec_offset(5) {
        5
    } else {
        6
    }
}

/// One axis coordinate lying inside the target chunk.
pub open spec fn axis_in(c: int) -> bool {
    0 <= c < 16
}

/// Coordinates the bundle can answer for: within one chunk width of the
/// target cube on every axis, and outside the cube on at most one axis.
pub open spec fn in_window(pos: IVec3) -> bool {
    &&& -16 <= pos.x < 32
    &&& -16 <= pos.y < 32
    &&& -16 <= pos.z < 32
    &&& ((axis_in(pos.x as int) && axis_in(pos.y as int)) || (axis_in(pos.y as int) && axis_in(
        pos.z as int,
    )) || (axis_in(pos.x as int) && axis_in(pos.z as int)))
}

/// The chunk-coordinate offset of the chunk owning `pos`.
pub open spec fn spec_owner_offset(pos: IVec3) -> IVec3 {
    IVec3 {
        x: ((pos.x + 16) / 16 - 1) as i32,
        y: ((pos.y + 16) / 16 - 1) as i32,
        z: ((pos.z + 16) / 16 - 1) as i32,
    }
}

/// The coordinate of `pos` local to its owning chunk.
pub open spec fn spec_local(pos: IVec3) -> IVec3 {
    IVec3 {
        x: ((pos.x + 16) % 16) as i32,
        y: ((pos.y + 16) % 16) as i32,
        z: ((pos.z + 16) % 16) as i32,
    }
}

/// Owner and local coordinate decompose a window position exactly: the
/// owning chunk is a face neighbor (or the target itself), the local
/// coordinate lies in the local cube, and together they reassemble the
/// queried position.
pub proof fn lemma_window_decomposition(pos: IVec3)
    requires
        in_window(pos),
    ensures
        spec_is_offset(spec_owner_offset(pos)),
        crate::chunk::in_local_cube(spec_local(pos)),
        pos.x == 16 * spec_owner_offset(pos).x + spec_local(pos).x,
        pos.y == 16 * spec_owner_offset(pos).y + spec_local(pos).y,
        pos.z == 16 * spec_owner_offset(pos).z + spec_local(pos).z,
{
    let v = spec_owner_offset(pos);
    assert(pos.x + 16 == 16 * ((pos.x + 16) / 16) + ((pos.x + 16) % 16)) by {
        vstd::arithmetic::div_mod::lemma_fundamental_div_mod(pos.x + 16, 16);
    }
    assert(pos.y + 16 == 16 * ((pos.y + 16) / 16) + ((pos.y + 16) % 16)) by {
        vstd::arithmetic::div_mod::lemma_fundamental_div_mod(pos.y + 16, 16);
    }
    assert(pos.z + 16 == 16 * ((pos.z + 16) / 16) + ((pos.z + 16) % 16)) by {
        vstd::arithmetic::div_mod::lemma_fundamental_div_mod(pos.z + 16, 16);
    }
    if v.x == -1 {
        assert(v == spec_offset(3));
    } else if v.x == 1 {
        assert(v == spec_offset(4));
    } else if v.y == -1 {
        assert(v == spec_offset(1));
    } else if v.y == 1 {
        assert(v == spec_offset(2));
    } else if v.z == -1 {
        assert(v == spec_offset(5));
    } else if v.z == 1 {
        assert(v == spec_offset(6));
    } else {
        assert(v == spec_offset(0));
    }
}

/// All seven chunks needed for one boundary-aware mesh build: the
/// target chunk and its six face-adjacent neighbors.
pub struct ChunksRefs {
    chunks: Vec<Chunk>,
}

impl ChunksRefs {
    /// Exactly seven chunks, each with a well-formed buffer.
    pub closed spec fn wf(&self) -> bool {
        &&& self.chunks@.len() == 7
        &&& forall|n: int| 0 <= n < 7 ==> (#[trigger] self.chunks@[n]).wf()
    }

    /// The chunk at neighbor slot `n`.
    pub closed spec fn spec_chunk(&self, n: int) -> Chunk {
        self.chunks@[n]
    }

    /// The block at a window position: read from the owning chunk at
    /// the local cell index.
    pub open spec fn spec_block(&self, pos: IVec3) -> u16 {
        spec_block_at(
            self.spec_chunk(spec_offset_index(spec_owner_offset(pos))).data@,
            spec_block_index(spec_local(pos)),
        )
    }

    /// Every block id readable through the window is below `bound`.
    pub open spec fn ids_below(&self, bound: int) -> bool {
        forall|pos: IVec3| in_window(pos) ==> (#[trigger] self.spec_block(pos)) < bound
    }

    /// Neighbor offset `n`, as a value.
    pub fn offset(n: usize) -> (r: IVec3)
        requires
            n < 7,
        ensures
            r == spec_offset(n as int),
    {
        match n {
            0 => IVec3 { x: 0, y: 0, z: 0 },
            1 => IVec3 { x: 0, y: -1, z: 0 },
            2 => IVec3 { x: 0, y: 1, z: 0 },
            3 => IVec3 { x: -1, y: 0, z: 0 },
            4 => IVec3 { x: 1, y: 0, z: 0 },
            5 => IVec3 { x: 0, y: 0, z: -1 },
            _ => IVec3 { x: 0, y: 0, z: 1 },
        }
    }

    /// Looks one chunk up in the load area.
    pub fn get_chunk(position: IVec3, area: &LoadArea) -> (r: Option<&Chunk>)
        requires
            area.wf(),
        ensures
            match r {
                Some(c) => area@.contains_key(position) && *c == area@[position],
                None => !area@.contains_key(position),
            },
    {
        area.get(&position)
    }

    /// Assembles the bundle for the chunk at `pos`. Produces nothing as
    /// soon as any of the seven required positions is not loaded.
    pub fn new(pos: IVec3, area: &LoadArea) -> (r: Option<ChunksRefs>)
        requires
            area.wf(),
            i32::MIN < pos.x < i32::MAX,
            i32::MIN < pos.y < i32::MAX,
            i32::MIN < pos.z < i32::MAX,
            forall|k: IVec3| area@.contains_key(k) ==> (#[trigger] area@[k]).wf(),
        ensures
            r is Some <==> (forall|n: int|
                0 <= n < 7 ==> area@.contains_key(pos.spec_plus(spec_offset(n)))),
            r matches Some(cr) ==> {
                &&& cr.wf()
                &&& forall|n: int|
                    0 <= n < 7 ==> {
                        &&& (#[trigger] cr.spec_chunk(n)).position == area@[pos.spec_plus(
                            spec_offset(n),
                        )].position
                        &&& cr.spec_chunk(n).data@ == area@[pos.spec_plus(spec_offset(n))].data@
                    }
            },
    {
        let mut chunks: Vec<Chunk> = Vec::new();
        let mut n: usize = 0;
        while n < 7
            invariant
                area.wf(),
                i32::MIN < pos.x < i32::MAX,
                i32::MIN < pos.y < i32::MAX,
                i32::MIN < pos.z < i32::MAX,
                forall|k: IVec3| area@.contains_key(k) ==> (#[trigger] area@[k]).wf(),
                0 <= n <= 7,
                chunks@.len() == n,
                forall|m: int|
                    0 <= m < n ==> area@.contains_key(pos.spec_plus(#[trigger] spec_offset(m))),
                forall|m: int|
                    0 <= m < n ==> {
                        &&& (#[trigger] chunks@[m]).wf()
                        &&& chunks@[m].position == area@[pos.spec_plus(spec_offset(m))].position
                        &&& chunks@[m].data@ == area@[pos.spec_plus(spec_offset(m))].data@
                    },
            decreases 7 - n,
        {
            let off = Self::offset(n);
            let p = pos.plus(off);
            match Self::get_chunk(p, area) {
                Some(c) => {
                    chunks.push(c.duplicate());
                },
                None => {
                    return None;
                },
            }
            n = n + 1;
        }
        Some(ChunksRefs { chunks })
    }

    /// The block at a window position, read from its owning chunk at
    /// its local cell: the boundary-aware block query.
    pub fn get_block(&self, pos: IVec3) -> (r: u16)
        requires
            self.wf(),
            in_window(pos),
        ensures
            r == self.spec_block(pos),
            r < 4096,
    {
        proof {
            lemma_window_decomposition(pos);
        }
        let x = (pos.x + SIZE_I32) as usize;
        let y = (pos.y + SIZE_I32) as usize;
        let z = (pos.z + SIZE_I32) as usize;
        let chunk = Self::chunk_index(x, y, z);
        proof {
            assert(chunk == spec_offset_index(spec_owner_offset(pos)));
        }
        let block = Self::block_index(x, y, z);
        self.chunks[chunk].get_block(block)
    }

    /// Which of the seven chunks owns the (window-shifted) coordinate.
    fn chunk_index(x: usize, y: usize, z: usize) -> (r: usize)
        requires
            x < 48,
            y < 48,
            z < 48,
            spec_is_offset(
                IVec3 {
                    x: (x as int / 16 - 1) as i32,
                    y: (y as int / 16 - 1) as i32,
                    z: (z as int / 16 - 1) as i32,
                },
            ),
        ensures
            r < 7,
            r as int == spec_offset_index(
                IVec3 {
                    x: (x as int / 16 - 1) as i32,
                    y: (y as int / 16 - 1) as i32,
                    z: (z as int / 16 - 1) as i32,
                },
            ),
    {
        let cx = (x / SIZE) as i32 - 1;
        let cy = (y / SIZE) as i32 - 1;
        let cz = (z / SIZE) as i32 - 1;
        Self::offset_index(IVec3 { x: cx, y: cy, z: cz })
    }

    /// The cell index of the (window-shifted) coordinate inside its
    /// owning chunk.
    fn block_index(x: usize, y: usize, z: usize) -> (r: usize)
        requires
            x < 48,
            y < 48,
            z < 48,
        ensures
            r < SIZE_P3,
            r as int == spec_block_index(
                IVec3 {
                    x: (x as int % 16) as i32,
                    y: (y as int % 16) as i32,
                    z: (z as int % 16) as i32,
                },
            ),
    {
        let bx = (x % SIZE) as i32;
        let by = (y % SIZE) as i32;
        let bz = (z % SIZE) as i32;
        Chunk::block_index(IVec3 { x: bx, y: by, z: bz })
    }

    /// Position of a neighbor offset among the seven.
    fn offset_index(v: IVec3) -> (r: usize)
        requires
            spec_is_offset(v),
        ensures
            r < 7,
            v == spec_offset(r as int),
            r as int == spec_offset_index(v),
    {
        let mut n: usize = 0;
        while n < 7
            invariant
                0 <= n <= 7,
                spec_is_offset(v),
                forall|m: int| 0 <= m < n ==> v != spec_offset(m),
            decreases 7 - n,
        {
            let o = Self::offset(n);
            if v.x == o.x && v.y == o.y && v.z == o.z {
                return n;
            }
            n = n + 1;
        }
        proof {
            let w = choose|w: int| 0 <= w < 7 && v == spec_offset(w);
            assert(false);
        }
        0
    }
}

} // verus!
