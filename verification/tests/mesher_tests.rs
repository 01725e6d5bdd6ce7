use voxel_core::area::LoadArea;
use voxel_core::blocks::{Block, BlocksHandler, ModelType};
use voxel_core::chunk::{Chunk, SIZE_P3};
use voxel_core::math::{IVec3, UVec2};
use voxel_core::mesher::{build_mesh, Direction, Face, Mesh, Vertex};
use voxel_core::refs::ChunksRefs;

fn stone_registry() -> BlocksHandler {
    BlocksHandler::new(vec![
        ("air".to_string(), ModelType::Empty),
        ("stone".to_string(), ModelType::Cube("stone.png".to_string())),
    ])
}

fn stone_block() -> Block {
    Block {
        id: 1,
        name: "stone".to_string(),
        model: ModelType::Cube("stone.png".to_string()),
    }
}

fn area_with_center(center_chunk: Chunk) -> LoadArea {
    let center = center_chunk.position;
    let mut area = LoadArea::new();
    area.insert(center, center_chunk);
    for n in 1..7 {
        let off = ChunksRefs::offset(n);
        let pos = IVec3::new(center.x + off.x, center.y + off.y, center.z + off.z);
        area.insert(pos, Chunk::new(pos));
    }
    area
}

fn vertex_dir(v: u32) -> u32 {
    (v >> 15) & 0b111
}

fn vertex_uv(v: u32) -> (u32, u32) {
    ((v >> 18) & 1, (v >> 19) & 1)
}

#[test]
fn vertex_packs_bit_exactly() {
    let block = stone_block();
    let v = Vertex::new(IVec3::new(1, 2, 3), Direction::Up, &block, &UVec2::new(1, 0));
    let expected = 1u32 | 2 << 5 | 3 << 10 | 0 << 15 | 1 << 18 | 0 << 19 | 1 << 20;
    assert_eq!(v, expected);
    let v2 = Vertex::new(
        IVec3::new(15, 15, 15),
        Direction::Down,
        &block,
        &UVec2::new(0, 1),
    );
    let expected2 = 15u32 | 15 << 5 | 15 << 10 | 5 << 15 | 0 << 18 | 1 << 19 | 1 << 20;
    assert_eq!(v2, expected2);
}

#[test]
fn direction_numeric_ids() {
    assert_eq!(Direction::Up.to_u32(), 0);
    assert_eq!(Direction::Left.to_u32(), 1);
    assert_eq!(Direction::Right.to_u32(), 2);
    assert_eq!(Direction::Forward.to_u32(), 3);
    assert_eq!(Direction::Back.to_u32(), 4);
    assert_eq!(Direction::Down.to_u32(), 5);
}

#[test]
fn direction_samples_and_winding() {
    assert_eq!(Direction::Up.world_sample(4, 1, 2), IVec3::new(1, 3, 2));
    assert_eq!(Direction::Down.world_sample(4, 1, 2), IVec3::new(1, 4, 2));
    assert_eq!(Direction::Left.world_sample(4, 1, 2), IVec3::new(4, 2, 1));
    assert_eq!(Direction::Right.world_sample(4, 1, 2), IVec3::new(3, 2, 1));
    assert_eq!(Direction::Forward.world_sample(4, 1, 2), IVec3::new(1, 2, 4));
    assert_eq!(Direction::Back.world_sample(4, 1, 2), IVec3::new(1, 2, 3));

    assert_eq!(Direction::Up.air_sample(), IVec3::new(0, 1, 0));
    assert_eq!(Direction::Down.air_sample(), IVec3::new(0, -1, 0));

    assert!(Direction::Up.reverse_order());
    assert!(Direction::Right.reverse_order());
    assert!(Direction::Forward.reverse_order());
    assert!(!Direction::Down.reverse_order());
    assert!(!Direction::Left.reverse_order());
    assert!(!Direction::Back.reverse_order());

    assert_eq!(Direction::Up.negate_axis(), 1);
    assert_eq!(Direction::Right.negate_axis(), 1);
    assert_eq!(Direction::Back.negate_axis(), 1);
    assert_eq!(Direction::Down.negate_axis(), 0);

    let dirs = Direction::iter();
    assert_eq!(
        dirs,
        vec![
            Direction::Left,
            Direction::Right,
            Direction::Down,
            Direction::Up,
            Direction::Back,
            Direction::Forward
        ]
    );
}

#[test]
fn face_vertices_follow_declared_winding() {
    let block = stone_block();
    // a direction with normal vertex order
    let quad = Face::new(2, 3).vertices(Direction::Back, 4, &block);
    assert_eq!(quad.len(), 4);
    let uvs: Vec<(u32, u32)> = quad.iter().map(|&v| vertex_uv(v)).collect();
    assert_eq!(uvs, vec![(1, 1), (0, 1), (0, 0), (1, 0)]);
    // a direction with reversed order
    let quad_rev = Face::new(2, 3).vertices(Direction::Up, 4, &block);
    let uvs_rev: Vec<(u32, u32)> = quad_rev.iter().map(|&v| vertex_uv(v)).collect();
    assert_eq!(uvs_rev, vec![(1, 1), (1, 0), (0, 0), (0, 1)]);
}

#[test]
fn generate_indices_emits_two_triangles_per_quad() {
    let vertices: Vec<u32> = vec![0; 8];
    let indices = Mesh::generate_indices(&vertices);
    assert_eq!(indices, vec![0, 1, 2, 0, 2, 3, 4, 5, 6, 4, 6, 7]);
    let empty: Vec<u32> = Vec::new();
    assert!(Mesh::generate_indices(&empty).is_empty());
}

#[test]
fn single_cube_emits_one_quad_per_direction() {
    let handler = stone_registry();
    let center = IVec3::new(0, 0, 0);
    let mut chunk = Chunk::new(center);
    chunk.set_block(Chunk::block_index(IVec3::new(5, 5, 5)), 1);
    let area = area_with_center(chunk);
    let refs = ChunksRefs::new(center, &area).unwrap();

    let vertices = Mesh::build(&handler, &refs);
    assert_eq!(vertices.len(), 6 * 4, "one quad per direction");
    let mut per_dir = [0usize; 6];
    for quad in vertices.chunks(4) {
        let d = vertex_dir(quad[0]) as usize;
        assert!(quad.iter().all(|&v| vertex_dir(v) as usize == d));
        per_dir[d] += 1;
    }
    assert_eq!(per_dir, [1, 1, 1, 1, 1, 1]);
}

#[test]
fn culling_hides_the_shared_face_of_adjacent_cubes() {
    let handler = stone_registry();
    let center = IVec3::new(0, 0, 0);
    let mut chunk = Chunk::new(center);
    chunk.set_block(Chunk::block_index(IVec3::new(5, 5, 5)), 1);
    chunk.set_block(Chunk::block_index(IVec3::new(6, 5, 5)), 1);
    let area = area_with_center(chunk);
    let refs = ChunksRefs::new(center, &area).unwrap();

    let vertices = Mesh::build(&handler, &refs);
    // two cubes, each with five exposed faces: the shared boundary is
    // culled from both sides
    assert_eq!(vertices.len() / 4, 10);
}

#[test]
fn all_air_neighborhood_emits_nothing() {
    let handler = stone_registry();
    let center = IVec3::new(0, 0, 0);
    let area = area_with_center(Chunk::new(center));
    let refs = ChunksRefs::new(center, &area).unwrap();
    let vertices = Mesh::build(&handler, &refs);
    assert!(vertices.is_empty());
}

#[test]
fn full_stone_chunk_meshes_every_surface_cell() {
    let handler = stone_registry();
    let center = IVec3::new(0, 0, 0);
    let mut chunk = Chunk::new(center);
    for i in 0..SIZE_P3 {
        chunk.set_block(i, 1);
    }
    let area = area_with_center(chunk);
    let refs = ChunksRefs::new(center, &area).unwrap();

    let mesh = build_mesh(center, &handler, &refs);
    assert_eq!(mesh.position, center);
    // one exposed face per surface cell per direction
    assert_eq!(mesh.vertices.len(), 6 * 256 * 4);
    assert_eq!(mesh.indices.len(), 6 * 256 * 6);

    // every direction contributes exactly its own surface layer
    let mut per_dir = [0usize; 6];
    for quad in mesh.vertices.chunks(4) {
        let d = vertex_dir(quad[0]) as usize;
        per_dir[d] += 1;
    }
    assert_eq!(per_dir, [256; 6]);

    // winding is consistent: the corner order follows each direction's
    // declared reversal
    for quad in mesh.vertices.chunks(4) {
        let uvs: Vec<(u32, u32)> = quad.iter().map(|&v| vertex_uv(v)).collect();
        let d = vertex_dir(quad[0]);
        let reversed = match d {
            0 => Direction::Up.reverse_order(),
            1 => Direction::Left.reverse_order(),
            2 => Direction::Right.reverse_order(),
            3 => Direction::Forward.reverse_order(),
            4 => Direction::Back.reverse_order(),
            _ => Direction::Down.reverse_order(),
        };
        if reversed {
            assert_eq!(uvs, vec![(1, 1), (1, 0), (0, 0), (0, 1)]);
        } else {
            assert_eq!(uvs, vec![(1, 1), (0, 1), (0, 0), (1, 0)]);
        }
    }

    // indices address whole quads
    for (q, tri) in mesh.indices.chunks(6).enumerate() {
        let base = (q * 4) as u32;
        assert_eq!(tri, [base, base + 1, base + 2, base, base + 2, base + 3]);
    }
}
