use voxel_core::blocks::{Block, BlocksHandler, ModelType};

fn sample_handler() -> BlocksHandler {
    BlocksHandler::new(vec![
        ("air".to_string(), ModelType::Empty),
        ("dirt".to_string(), ModelType::Cube("dirt.png".to_string())),
        ("grass".to_string(), ModelType::Cube("grass.png".to_string())),
        ("stone".to_string(), ModelType::Cube("stone.png".to_string())),
        ("stair".to_string(), ModelType::Stair("stair.png".to_string())),
        ("slab".to_string(), ModelType::Slab("slab.png".to_string())),
    ])
}

#[test]
fn ids_are_dense_and_zero_based() {
    let handler = sample_handler();
    for (i, block) in handler.values.iter().enumerate() {
        assert_eq!(block.id as usize, i);
    }
    assert_eq!(handler.values.len(), 6);
    assert_eq!(handler.values[0].name, "air");
    assert_eq!(handler.values[3].name, "stone");
}

#[test]
fn find_block_returns_the_id() {
    let handler = sample_handler();
    assert_eq!(handler.find_block("air"), 0);
    assert_eq!(handler.find_block("dirt"), 1);
    assert_eq!(handler.find_block("grass"), 2);
    assert_eq!(handler.find_block("stone"), 3);
}

#[test]
fn find_block_falls_back_to_zero() {
    let handler = sample_handler();
    assert_eq!(handler.find_block("lava"), 0);
    assert_eq!(handler.find_block(""), 0);
}

#[test]
fn block_by_id_in_and_out_of_range() {
    let handler = sample_handler();
    let stone = handler.block(3).expect("stone is catalogued");
    assert_eq!(stone.id, 3);
    assert_eq!(stone.name, "stone");
    assert!(handler.block(6).is_none());
    assert!(handler.block(4095).is_none());
}

#[test]
fn only_cubes_are_meshable() {
    assert!(!ModelType::Empty.is_meshable());
    assert!(ModelType::Cube("x.png".to_string()).is_meshable());
    assert!(!ModelType::Stair("x.png".to_string()).is_meshable());
    assert!(!ModelType::Slab("x.png".to_string()).is_meshable());
    let block = Block {
        id: 0,
        name: "stone".to_string(),
        model: ModelType::Cube("stone.png".to_string()),
    };
    assert!(block.is_meshable());
}
