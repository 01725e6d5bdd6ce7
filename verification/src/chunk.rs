//! Fixed-size cubic chunk storage. A chunk is a cube of side `SIZE`
//! whose cells hold 12-bit block ids, packed two cells per three bytes.

use vstd::prelude::*;

use crate::math::IVec3;

verus! {

/// Side of a chunk, in blocks.
pub const SIZE: usize = 16;

pub const SIZE_I32: i32 = 16;

/// Number of cells of a chunk.
pub const SIZE_P3: usize = SIZE * SIZE * SIZE;

/// Width of one stored block id, in bits.
pub const BLOCK_SIZE: usize = 12;

pub const BYTE: usize = 8;

pub const HALF_BYTE: usize = BYTE / 2;

/// Length of a chunk's packed buffer, in bytes.
pub const BUF_SIZE: usize = SIZE_P3 * BLOCK_SIZE / BYTE;

/// The 12-bit value of an even cell, stored in one whole byte and the
/// high half of the following one.
pub open spec fn pack_even(b0: u8, b1: u8) -> u16 {
    (((b0 as u16) << 4) | ((b1 as u16) >> 4)) as u16
}

/// The 12-bit value of an odd cell, stored in the low half of one byte
/// and the whole following one.
pub open spec fn pack_odd(b1: u8, b2: u8) -> u16 {
    ((((b1 as u16) & 0x0f) << 8) | (b2 as u16)) as u16
}

/// The block id stored at cell `index` of a packed buffer.
pub open spec fn spec_block_at(data: Seq<u8>, index: int) -> u16 {
    if index % 2 == 0 {
        pack_even(data[3 * (index / 2)], data[3 * (index / 2) + 1])
    } else {
        pack_odd(data[3 * (index / 2) + 1], data[3 * (index / 2) + 2])
    }
}

/// Linear cell index of a local coordinate, in XZY order: x varies
/// fastest, then z, then y.
pub open spec fn spec_block_index(pos: IVec3) -> int {
    pos.x % 16 + pos.y * 256 + pos.z * 16
}

/// The local coordinate cube `[0, SIZE)` on every axis.
pub open spec fn in_local_cube(pos: IVec3) -> bool {
    &&& 0 <= pos.x < 16
    &&& 0 <= pos.y < 16
    &&& 0 <= pos.z < 16
}

/// Cell indexing is injective over the local coordinate cube: two
/// distinct local coordinates never share a linear cell index.
pub proof fn lemma_block_index_injective(a: IVec3, b: IVec3)
    requires
        in_local_cube(a),
        in_local_cube(b),
        spec_block_index(a) == spec_block_index(b),
    ensures
        a == b,
{
    assert(a.x % 16 == a.x);
    assert(b.x % 16 == b.x);
    assert(a.x + a.y * 256 + a.z * 16 == b.x + b.y * 256 + b.z * 16);
    assert(a.x == b.x && a.z == b.z && a.y == b.y) by (nonlinear_arith)
        requires
            0 <= a.x < 16,
            0 <= a.y < 16,
            0 <= a.z < 16,
            0 <= b.x < 16,
            0 <= b.y < 16,
            0 <= b.z < 16,
            a.x + a.y * 256 + a.z * 16 == b.x + b.y * 256 + b.z * 16,
    ;
}

/// One cubic block of voxel storage, identified by its position in
/// chunk coordinates.
#[derive(Debug)]
pub struct Chunk {
    pub position: IVec3,
    /// Packed cell data: two 12-bit block ids per three bytes.
    pub data: Vec<u8>,
}

impl Chunk {
    /// A chunk is well-formed when its buffer has exactly the computed size.
    pub open spec fn wf(&self) -> bool {
        self.data@.len() == BUF_SIZE
    }

    /// The block id of cell `index`, as a spec value.
    pub open spec fn spec_block(&self, index: int) -> u16 {
        spec_block_at(self.data@, index)
    }

    /// A zero-filled chunk at `position`: every cell holds block id 0.
    pub fn new(position: IVec3) -> (r: Chunk)
        ensures
            r.wf(),
            r.position == position,
            forall|j: int| 0 <= j < SIZE_P3 ==> r.spec_block(j) == 0,
    {
        let data: Vec<u8> = vec![0u8; BUF_SIZE];
        assert(forall|i: int| 0 <= i < BUF_SIZE ==> data@[i] == 0);
        assert(pack_even(0, 0) == 0) by (bit_vector);
        assert(pack_odd(0, 0) == 0) by (bit_vector);
        assert forall|j: int| 0 <= j < SIZE_P3 implies spec_block_at(data@, j) == 0 by {
            assert(0 <= 3 * (j / 2) && 3 * (j / 2) + 2 < BUF_SIZE);
        }
        Chunk { position, data }
    }

    /// An equal, independently owned copy of the chunk.
    pub fn duplicate(&self) -> (r: Chunk)
        ensures
            r.position == self.position,
            r.data@ == self.data@,
    {
        let data = self.data.clone();
        assert(data@ =~= self.data@);
        Chunk { position: self.position, data }
    }

    /// Reads the 12-bit block id packed at cell `index`.
    pub fn get_block(&self, index: usize) -> (r: u16)
        requires
            self.wf(),
            index < SIZE_P3,
        ensures
            r == self.spec_block(index as int),
            r < 4096,
    {
        proof {
            lemma_buf_offset(index);
        }
        let i = index * BLOCK_SIZE / BYTE;
        let (a, b) = if index % 2 == 0 {
            // first byte whole, second byte's high half
            ((self.data[i] as u16), ((self.data[i + 1] >> HALF_BYTE) as u16))
        } else {
            // first byte's low half, second byte whole
            (((self.data[i] << HALF_BYTE) as u16), (self.data[i + 1] as u16))
        };
        let r = a << HALF_BYTE | b;
        proof {
            let b0 = self.data@[i as int];
            let b1 = self.data@[i + 1];
            if index % 2 == 0 {
                assert((b0 as u16) << 4 | ((b1 >> 4) as u16) == pack_even(b0, b1)) by (bit_vector);
                assert(pack_even(b0, b1) < 4096) by (bit_vector);
            } else {
                assert(((b0 << 4) as u16) << 4 | (b1 as u16) == pack_odd(b0, b1)) by (bit_vector);
                assert(pack_odd(b0, b1) < 4096) by (bit_vector);
            }
        }
        r
    }

    /// Writes the 12-bit block id `value` at cell `index`, leaving every
    /// other cell unchanged. Together with `get_block` this is the
    /// round trip: reading the cell back yields `value` whatever the
    /// parity of the index, and the adjacent packed cell keeps its value.
    pub fn set_block(&mut self, index: usize, value: u16)
        requires
            old(self).wf(),
            index < SIZE_P3,
            value < 4096,
        ensures
            final(self).wf(),
            final(self).position == old(self).position,
            final(self).spec_block(index as int) == value,
            forall|j: int|
                0 <= j < SIZE_P3 && j != index ==> final(self).spec_block(j) == old(
                    self,
                ).spec_block(j),
    {
        proof {
            lemma_buf_offset(index);
        }
        let ghost orig = self.data@;
        let i = index * BLOCK_SIZE / BYTE;
        if index % 2 == 0 {
            // whole first byte, then the high half of the second
            let (a, b) = ((value >> HALF_BYTE) as u8, (value & 0b1111) as u8);
            self.data[i] = a;
            self.data[i + 1] = (self.data[i + 1] & 0b0000_1111) | (b << HALF_BYTE);
        } else {
            // the low half of the first byte, then the whole second byte
            let (a, b) = ((value >> BYTE) as u8, (value & 0b1111_1111) as u8);
            self.data[i] = (self.data[i] & 0b1111_0000) | a;
            self.data[i + 1] = b;
        }
        proof {
            lemma_set_block_effect(orig, self.data@, index as int, value);
        }
    }

    /// Linear cell index of a local coordinate (XZY order). The x
    /// component is taken modulo the chunk side; the other components
    /// must already be local.
    pub fn block_index(pos: IVec3) -> (r: usize)
        requires
            0 <= pos.x,
            0 <= pos.y < 16,
            0 <= pos.z < 16,
        ensures
            r == spec_block_index(pos),
            r < SIZE_P3,
    {
        let x = pos.x % SIZE_I32;
        let z = pos.z * SIZE_I32;
        let y = pos.y * SIZE_I32 * SIZE_I32;
        (x + y + z) as usize
    }
}

/// Byte offset facts for a cell index: where its two bytes lie and that
/// they stay inside the buffer.
proof fn lemma_buf_offset(index: usize)
    requires
        index < SIZE_P3,
    ensures
        index as int * BLOCK_SIZE as int / BYTE as int == 3 * (index as int / 2) + (index as int
            % 2),
        index as int * BLOCK_SIZE as int / BYTE as int + 1 < BUF_SIZE,
        index % 2 == 0 ==> index as int * BLOCK_SIZE as int / BYTE as int == 3 * (index as int
            / 2),
        index % 2 != 0 ==> index as int * BLOCK_SIZE as int / BYTE as int == 3 * (index as int / 2)
            + 1,
{
    assert(index < 4096 ==> index * 12 / 8 == 3 * (index / 2) + index % 2) by (bit_vector);
    assert(index as int / 2 == index / 2);
    assert(index as int % 2 == index % 2);
    assert(index / 2 <= 2047) by (bit_vector)
        requires
            index < 4096,
    ;
}

/// What one `set_block` write does to the packed buffer: the written
/// cell reads back as `value` and every other cell reads unchanged.
proof fn lemma_set_block_effect(orig: Seq<u8>, now: Seq<u8>, index: int, value: u16)
    requires
        orig.len() == BUF_SIZE,
        now.len() == BUF_SIZE,
        0 <= index < SIZE_P3,
        value < 4096,
        index % 2 == 0 ==> {
            &&& now == orig.update(3 * (index / 2), ((value >> 4) as u8)).update(
                3 * (index / 2) + 1,
                (orig[3 * (index / 2) + 1] & 0x0f) | ((((value & 0x0f) as u8) << 4) as u8),
            )
        },
        index % 2 != 0 ==> {
            &&& now == orig.update(
                3 * (index / 2) + 1,
                (orig[3 * (index / 2) + 1] & 0xf0) | ((value >> 8) as u8),
            ).update(3 * (index / 2) + 2, ((value & 0xff) as u8))
        },
    ensures
        spec_block_at(now, index) == value,
        forall|j: int| 0 <= j < SIZE_P3 && j != index ==> spec_block_at(now, j) == spec_block_at(
            orig,
            j,
        ),
{
    let k = index / 2;
    if index % 2 == 0 {
        let q = orig[3 * k + 1];
        let b2 = orig[3 * k + 2];
        assert(pack_even((value >> 4) as u8, (q & 0x0f) | ((((value & 0x0f) as u8) << 4) as u8))
            == value) by (bit_vector)
            requires
                value < 4096,
        ;
        assert(pack_odd((q & 0x0f) | ((((value & 0x0f) as u8) << 4) as u8), b2) == pack_odd(
            q,
            b2,
        )) by (bit_vector);
    } else {
        let q = orig[3 * k + 1];
        let b0 = orig[3 * k];
        assert(pack_odd((q & 0xf0) | ((value >> 8) as u8), (value & 0xff) as u8) == value)
            by (bit_vector)
            requires
                value < 4096,
        ;
        assert(pack_even(b0, (q & 0xf0) | ((value >> 8) as u8)) == pack_even(b0, q))
            by (bit_vector)
            requires
                value < 4096,
        ;
    }
    assert forall|j: int| 0 <= j < SIZE_P3 && j != index implies spec_block_at(now, j)
        == spec_block_at(orig, j) by {
        let m = j / 2;
        if m != k {
            assert(3 * m != 3 * k && 3 * m != 3 * k + 1 && 3 * m != 3 * k + 2);
            assert(3 * m + 1 != 3 * k && 3 * m + 1 != 3 * k + 1 && 3 * m + 1 != 3 * k + 2);
            assert(3 * m + 2 != 3 * k && 3 * m + 2 != 3 * k + 1 && 3 * m + 2 != 3 * k + 2);
        }
    }
}

} // verus!
