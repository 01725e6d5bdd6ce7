use voxel_core::blocks::{BlocksHandler, ModelType};
use voxel_core::chunk::SIZE_P3;
use voxel_core::generate::{Context, Generator, GENERATION_RANGE};
use voxel_core::math::IVec3;

fn world_registry() -> BlocksHandler {
    BlocksHandler::new(vec![
        ("air".to_string(), ModelType::Empty),
        ("dirt".to_string(), ModelType::Cube("dirt.png".to_string())),
        ("grass".to_string(), ModelType::Cube("grass.png".to_string())),
        ("stone".to_string(), ModelType::Cube("stone.png".to_string())),
    ])
}

#[test]
fn context_carries_a_seeded_noise_source() {
    let _context = Context::new(0);
    let _other = Context::new(12345);
}

#[test]
fn chunks_outside_the_range_are_all_air() {
    let blocks = world_registry();
    for pos in [
        IVec3::new(GENERATION_RANGE + 1, 0, 0),
        IVec3::new(0, -GENERATION_RANGE - 1, 0),
        IVec3::new(0, 0, 100),
    ] {
        let chunk = Generator::generate(pos, &blocks);
        assert_eq!(chunk.position, pos);
        for i in 0..SIZE_P3 {
            assert_eq!(chunk.get_block(i), 0);
        }
    }
}

#[test]
fn chunks_off_the_ground_layer_are_all_air() {
    let blocks = world_registry();
    let chunk = Generator::generate(IVec3::new(1, 1, 1), &blocks);
    for i in 0..SIZE_P3 {
        assert_eq!(chunk.get_block(i), 0);
    }
}

#[test]
fn ground_layer_cells_come_from_the_candidate_set() {
    let blocks = world_registry();
    let chunk = Generator::generate(IVec3::new(0, 0, 0), &blocks);
    assert_eq!(chunk.position, IVec3::new(0, 0, 0));
    for i in 0..SIZE_P3 {
        let v = chunk.get_block(i);
        assert!(v <= 3, "cell {} holds {}, not a candidate block", i, v);
    }
}
