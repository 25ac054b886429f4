use craftoria::block::block::Block;
use craftoria::block::blocks::Block as CatalogBlock;
use craftoria::level::chunk::build::flat::flat::{Strata, StrataDescription};
use craftoria::level::chunk::build::prototype::WorldType;
use craftoria::level::chunk::build::world::WorldServer;
use craftoria::level::chunk::config::ChunkConfigs;
use craftoria::level::configs::variable::Variable;
use craftoria::level::generators::flat_world::FlatWorldGenerator;
use craftoria::level::generators::simple_gen::SimpleWorldGenerator;
use craftoria::level::generators::WorldGenerator;
use craftoria::level::level::Level;
use craftoria::level::position::LevelPosition;
use craftoria::utils::position::chunk::ChunkPosition;
use craftoria::utils::position::global::{GlobalPosition, GlobalUnit};

fn at_height(y: i32) -> GlobalPosition {
    GlobalPosition(GlobalUnit(3), GlobalUnit(y), GlobalUnit(-4))
}

#[test]
fn simple_generator_calc_takes_the_first_layer_that_holds() {
    let generator = SimpleWorldGenerator { seed: 0 };
    let config = [
        ((None, Some(1)), Block::Bedrock),
        ((Some(1), Some(12)), Block::Stone),
        ((Some(0), Some(20)), Block::Sand),
        ((Some(30), None), Block::Grass),
    ];
    let calc = |y: i32| generator.calc(LevelPosition::new(5, y, -5), &config);
    assert_eq!(calc(i32::MIN), Block::Bedrock);
    assert_eq!(calc(0), Block::Bedrock);
    assert_eq!(calc(1), Block::Stone);
    assert_eq!(calc(11), Block::Stone);
    assert_eq!(calc(12), Block::Sand);
    assert_eq!(calc(19), Block::Sand);
    assert_eq!(calc(20), Block::Air);
    assert_eq!(calc(29), Block::Air);
    assert_eq!(calc(30), Block::Grass);
    assert_eq!(calc(i32::MAX - 1), Block::Grass);
    assert_eq!(calc(i32::MAX), Block::Air);
    assert_eq!(generator.calc(LevelPosition::new(0, 0, 0), &[]), Block::Air);
}

#[test]
fn simple_generator_layers_by_world_height() {
    let mut generator = SimpleWorldGenerator { seed: 9 };
    let chunk = generator.generate_chunk(ChunkConfigs::default(), LevelPosition::new(32, 0, -16));
    let expected = |y: i32| {
        if y < 1 {
            Block::Bedrock
        } else if y < 12 {
            Block::Stone
        } else if y < 15 {
            Block::Dirt
        } else {
            Block::Grass
        }
    };
    for y in 0..16 {
        for (x, z) in [(0, 0), (15, 3), (7, 15)] {
            assert_eq!(*chunk.get(LevelPosition::new(x, y, z)), expected(y));
        }
    }
    assert_eq!(generator.seed, 9);
    let above = generator.generate_chunk(ChunkConfigs::default(), LevelPosition::new(0, 16, 0));
    assert_eq!(*above.get(LevelPosition::new(0, 0, 0)), Block::Grass);
    let below = generator.generate_chunk(ChunkConfigs::default(), LevelPosition::new(0, -16, 0));
    assert_eq!(*below.get(LevelPosition::new(0, 15, 0)), Block::Bedrock);
    let low = generator.generate_chunk(ChunkConfigs::default(), LevelPosition::new(0, -8, 0));
    assert_eq!(*low.get(LevelPosition::new(0, 8, 0)), Block::Bedrock);
    assert_eq!(*low.get(LevelPosition::new(0, 9, 0)), Block::Stone);
}

#[test]
fn flat_generator_is_stone() {
    let mut generator = FlatWorldGenerator { seed: 1 };
    let chunk = generator.generate_chunk(ChunkConfigs::default(), LevelPosition::new(0, 160, 0));
    for p in [(0, 0, 0), (15, 15, 15), (3, 9, 1)] {
        assert_eq!(*chunk.get(LevelPosition::new(p.0, p.1, p.2)), Block::Stone);
    }
}

#[test]
fn strata_first_layer_counts() {
    let mut world = StrataDescription::new();
    assert_eq!(world.get(at_height(0)), CatalogBlock::Air);
    world.add(Strata(GlobalUnit(-64), GlobalUnit(0), CatalogBlock::Stone));
    world.add(Strata(GlobalUnit(-4), GlobalUnit(3), CatalogBlock::Dirt));
    world.add(Strata(GlobalUnit(3), GlobalUnit(4), CatalogBlock::Grass));
    world.add(Strata(GlobalUnit(10), GlobalUnit(10), CatalogBlock::Glass));
    assert_eq!(world.get(at_height(-65)), CatalogBlock::Air);
    assert_eq!(world.get(at_height(-64)), CatalogBlock::Stone);
    assert_eq!(world.get(at_height(-4)), CatalogBlock::Stone);
    assert_eq!(world.get(at_height(-1)), CatalogBlock::Stone);
    assert_eq!(world.get(at_height(0)), CatalogBlock::Dirt);
    assert_eq!(world.get(at_height(2)), CatalogBlock::Dirt);
    assert_eq!(world.get(at_height(3)), CatalogBlock::Grass);
    assert_eq!(world.get(at_height(4)), CatalogBlock::Air);
    assert_eq!(world.get(at_height(10)), CatalogBlock::Air);
}

#[test]
fn level_starts_with_a_square_of_chunks_and_one_above() {
    let queue = Level::spawn_queue();
    assert_eq!(queue.len(), 17);
    assert_eq!(queue[0], LevelPosition::new(-32, 0, -32));
    assert_eq!(queue[1], LevelPosition::new(-32, 0, -16));
    assert_eq!(queue[3], LevelPosition::new(-32, 0, 16));
    assert_eq!(queue[4], LevelPosition::new(-16, 0, -32));
    assert_eq!(queue[10], LevelPosition::new(0, 0, 0));
    assert_eq!(queue[15], LevelPosition::new(16, 0, 16));
    assert_eq!(queue[16], LevelPosition::new(0, 16, 0));
    for (i, position) in queue.iter().take(16).enumerate() {
        let i = i as i32;
        assert_eq!(*position, LevelPosition::from_chunk_xyz(i / 4 - 2, 0, i % 4 - 2));
    }
}

#[test]
fn variable_keeps_its_value() {
    assert_eq!(Variable::new(42u64).value(), 42);
    assert_eq!(Variable::new(-3i32).value(), -3);
    assert!(Variable::new(true).value());
}

#[test]
fn world_server_has_empty_chunks() {
    let chunk = WorldServer.get_chunk(ChunkPosition::new(1, -2, 3));
    let mut iter = chunk.iter();
    let mut cells = 0;
    while let Some((_, block)) = iter.next() {
        assert_eq!(*block, CatalogBlock::Air);
        cells += 1;
    }
    assert_eq!(cells, 4096);
}
