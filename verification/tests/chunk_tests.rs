use voxel_core::chunk::{Chunk, BUF_SIZE, SIZE, SIZE_P3};
use voxel_core::math::IVec3;

#[test]
fn buffer_size_is_exact() {
    let chunk = Chunk::new(IVec3::new(0, 0, 0));
    assert_eq!(chunk.data.len(), BUF_SIZE);
    assert_eq!(BUF_SIZE, SIZE * SIZE * SIZE * 12 / 8);
    assert_eq!(BUF_SIZE, 6144);
}

#[test]
fn new_chunk_is_all_zero() {
    let chunk = Chunk::new(IVec3::new(1, -2, 3));
    for i in 0..SIZE_P3 {
        assert_eq!(chunk.get_block(i), 0);
    }
    assert_eq!(chunk.position, IVec3::new(1, -2, 3));
}

#[test]
fn round_trip_all_indices() {
    let mut chunk = Chunk::new(IVec3::new(0, 0, 0));
    for i in 0..SIZE_P3 {
        let v = ((i * 7 + 13) % 4096) as u16;
        chunk.set_block(i, v);
        assert_eq!(chunk.get_block(i), v);
    }
    // all cells still hold what was written
    for i in 0..SIZE_P3 {
        let v = ((i * 7 + 13) % 4096) as u16;
        assert_eq!(chunk.get_block(i), v);
    }
}

#[test]
fn round_trip_all_values_both_parities() {
    let mut chunk = Chunk::new(IVec3::new(0, 0, 0));
    for v in 0..4096u16 {
        chunk.set_block(0, v);
        assert_eq!(chunk.get_block(0), v, "even index, value {}", v);
        chunk.set_block(1, v);
        assert_eq!(chunk.get_block(1), v, "odd index, value {}", v);
        chunk.set_block(4094, v);
        assert_eq!(chunk.get_block(4094), v);
        chunk.set_block(4095, v);
        assert_eq!(chunk.get_block(4095), v);
    }
}

#[test]
fn set_block_leaves_adjacent_cell_untouched() {
    let mut chunk = Chunk::new(IVec3::new(0, 0, 0));
    chunk.set_block(0, 0xabc);
    chunk.set_block(1, 0x123);
    assert_eq!(chunk.get_block(0), 0xabc);
    assert_eq!(chunk.get_block(1), 0x123);
    // overwrite the even cell of the shared 3-byte group
    chunk.set_block(0, 0xfff);
    assert_eq!(chunk.get_block(0), 0xfff);
    assert_eq!(chunk.get_block(1), 0x123);
    // overwrite the odd cell of the shared group
    chunk.set_block(1, 0x001);
    assert_eq!(chunk.get_block(0), 0xfff);
    assert_eq!(chunk.get_block(1), 0x001);
    // the next group is untouched
    assert_eq!(chunk.get_block(2), 0);
}

#[test]
fn block_index_is_xzy_ordered() {
    assert_eq!(Chunk::block_index(IVec3::new(1, 2, 3)), 1 + 2 * 256 + 3 * 16);
    assert_eq!(Chunk::block_index(IVec3::new(0, 0, 0)), 0);
    assert_eq!(Chunk::block_index(IVec3::new(15, 15, 15)), 4095);
    // x is taken modulo the chunk side
    assert_eq!(Chunk::block_index(IVec3::new(17, 0, 0)), 1);
}

#[test]
fn block_index_injective_over_local_cube() {
    let mut seen = vec![false; SIZE_P3];
    for x in 0..16 {
        for y in 0..16 {
            for z in 0..16 {
                let i = Chunk::block_index(IVec3::new(x, y, z));
                assert!(!seen[i], "index {} hit twice", i);
                seen[i] = true;
            }
        }
    }
    assert!(seen.iter().all(|&b| b));
}

#[test]
fn duplicate_copies_contents() {
    let mut chunk = Chunk::new(IVec3::new(4, 5, 6));
    chunk.set_block(100, 777);
    let copy = chunk.duplicate();
    assert_eq!(copy.position, chunk.position);
    assert_eq!(copy.data, chunk.data);
    chunk.set_block(100, 1);
    assert_eq!(copy.get_block(100), 777);
}
