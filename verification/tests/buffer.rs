use craftoria::block::block::Block;
use craftoria::level::chunk::buffer::ChunkBuffer;
use craftoria::level::chunk::config::{CHUNK_SIZE, CHUNK_VOLUME_SIZE};
use craftoria::level::chunk::data::ChunkBlockData;
use craftoria::level::position::LevelPosition;

#[test]
fn buffer_reads_back_what_was_written() {
    let mut buffer = ChunkBuffer::<u32>::from_item(&0);
    let mut n = 0u32;
    for y in 0..16 {
        for z in 0..16 {
            for x in 0..16 {
                buffer.set(LevelPosition::new(x, y, z), &n);
                n += 1;
            }
        }
    }
    let mut n = 0u32;
    for y in 0..16 {
        for z in 0..16 {
            for x in 0..16 {
                assert_eq!(*buffer.get(LevelPosition::new(x, y, z)), n);
                n += 1;
            }
        }
    }
}

#[test]
fn buffer_write_changes_one_cell() {
    let mut buffer = ChunkBuffer::<u8>::from_item(&7);
    buffer.set(LevelPosition::new(1, 2, 3), &9);
    for (position, value) in items(&buffer) {
        let expected = if position == LevelPosition::new(1, 2, 3) { 9 } else { 7 };
        assert_eq!(value, expected);
    }
}

fn items<T: Copy + Default>(buffer: &ChunkBuffer<T>) -> Vec<(LevelPosition, T)> {
    let mut iter = buffer.iter();
    let mut items = Vec::new();
    while let Some((position, value)) = iter.next() {
        items.push((position, *value));
    }
    items
}

#[test]
fn buffer_is_stored_by_linear_index() {
    let mut buffer = ChunkBuffer::<u8>::from_item(&0);
    buffer.set(LevelPosition::new(3, 5, 7), &1);
    // x + z * 16 + y * 256: layer 5, row 7, place 3.
    assert_eq!(buffer.0[5][7][3], 1);
    assert_eq!(LevelPosition::new(3, 5, 7).buffer_index(), 3 + 7 * 16 + 5 * 256);
}

#[test]
fn buffer_try_get_outside_is_absent() {
    let buffer = ChunkBuffer::<u8>::from_item(&4);
    assert_eq!(buffer.try_get(LevelPosition::new(0, 0, 0)), Some(&4));
    assert_eq!(buffer.try_get(LevelPosition::new(15, 15, 15)), Some(&4));
    for p in [
        (-1, 0, 0),
        (0, -1, 0),
        (0, 0, -1),
        (16, 0, 0),
        (0, 16, 0),
        (0, 0, 16),
        (i32::MIN, 3, 3),
        (3, i32::MAX, 3),
    ] {
        assert_eq!(buffer.try_get(LevelPosition::new(p.0, p.1, p.2)), None);
    }
}

#[test]
fn buffer_iteration_visits_every_cell_once_layer_by_layer() {
    let buffer = ChunkBuffer::<u16>::from_fn(|p| (p.x + p.z * 16 + p.y * 256) as u16);
    let items = items(&buffer);
    assert_eq!(items.len(), CHUNK_VOLUME_SIZE);
    for (i, (position, value)) in items.iter().enumerate() {
        assert_eq!(*value as usize, i);
        assert_eq!(position.x as usize, i % 16);
        assert_eq!(position.z as usize, (i / 16) % 16);
        assert_eq!(position.y as usize, i / 256);
    }
    // Every 256th item starts a new layer.
    assert_eq!(items[255].0, LevelPosition::new(15, 0, 15));
    assert_eq!(items[256].0, LevelPosition::new(0, 1, 0));
    assert_eq!(items[16].0, LevelPosition::new(0, 0, 1));
}

#[test]
fn buffer_iterator_ends_and_restarts() {
    let buffer = ChunkBuffer::<u8>::from_item(&1);
    let mut iter = buffer.iter();
    for _ in 0..CHUNK_VOLUME_SIZE {
        assert!(iter.next().is_some());
    }
    assert_eq!(iter.next(), None);
    assert_eq!(iter.next(), None);
    let mut again = buffer.iter();
    assert_eq!(again.next(), Some((LevelPosition::new(0, 0, 0), &1)));
}

#[test]
fn buffer_fill_and_clear() {
    let mut buffer = ChunkBuffer::<i32>::from_item(&3);
    buffer.set(LevelPosition::new(2, 2, 2), &8);
    buffer.fill(&5);
    assert!(items(&buffer).iter().all(|(_, v)| *v == 5));
    buffer.clear();
    assert!(items(&buffer).iter().all(|(_, v)| *v == 0));
    let fresh = ChunkBuffer::<bool>::default();
    assert!(items(&fresh).iter().all(|(_, v)| !*v));
}

#[test]
fn buffer_from_array_takes_layers_of_rows() {
    let mut data = [[[0u16; CHUNK_SIZE]; CHUNK_SIZE]; CHUNK_SIZE];
    for y in 0..16 {
        for z in 0..16 {
            for x in 0..16 {
                data[y][z][x] = (x + 16 * z + 256 * y) as u16;
            }
        }
    }
    let buffer = ChunkBuffer::from_array(data);
    assert_eq!(*buffer.get(LevelPosition::new(1, 2, 3)), 1 + 16 * 3 + 256 * 2);
    for (i, (_, value)) in items(&buffer).iter().enumerate() {
        assert_eq!(*value as usize, i);
    }
}

#[test]
fn buffer_from_fn_calls_in_index_order() {
    let calls = std::cell::RefCell::new(Vec::new());
    let buffer = ChunkBuffer::<i32>::from_fn(|p| {
        calls.borrow_mut().push(p);
        p.x - p.y
    });
    assert_eq!(*buffer.get(LevelPosition::new(9, 4, 0)), 5);
    let calls = calls.into_inner();
    assert_eq!(calls.len(), CHUNK_VOLUME_SIZE);
    assert_eq!(calls[0], LevelPosition::new(0, 0, 0));
    assert_eq!(calls[1], LevelPosition::new(1, 0, 0));
    assert_eq!(calls[4095], LevelPosition::new(15, 15, 15));
}

#[test]
fn block_data_wraps_a_buffer_of_blocks() {
    let mut data = ChunkBlockData::default();
    assert_eq!(*data.get(LevelPosition::new(0, 0, 0)), Block::Air);
    data.set(LevelPosition::new(1, 1, 1), &Block::Sand);
    assert_eq!(*data.get(LevelPosition::new(1, 1, 1)), Block::Sand);
    assert_eq!(data.try_get(LevelPosition::new(1, 1, 1)), Some(&Block::Sand));
    assert_eq!(data.try_get(LevelPosition::new(1, 1, 16)), None);
    assert_eq!(data.try_get(LevelPosition::new(-1, 1, 1)), None);
    data.fill(&Block::Dirt);
    assert_eq!(*data.get(LevelPosition::new(1, 1, 1)), Block::Dirt);
    let stone = ChunkBlockData::from_item(&Block::Stone);
    assert_eq!(*stone.get(LevelPosition::new(15, 0, 15)), Block::Stone);
    let layers = ChunkBlockData::from_array([[[Block::Grass; CHUNK_SIZE]; CHUNK_SIZE]; CHUNK_SIZE]);
    assert_eq!(*layers.get(LevelPosition::new(15, 15, 15)), Block::Grass);
}

#[test]
fn block_data_from_fn_passes_world_and_local_position() {
    let origin = LevelPosition::new(-32, 16, 48);
    let data = ChunkBlockData::from_fn(origin, |world, local| {
        assert_eq!(world, LevelPosition::new(local.x - 32, local.y + 16, local.z + 48));
        if world.y == 20 && local.x == 0 { Block::Water } else { Block::Stone }
    });
    assert_eq!(*data.get(LevelPosition::new(0, 4, 9)), Block::Water);
    assert_eq!(*data.get(LevelPosition::new(1, 4, 9)), Block::Stone);
    assert_eq!(*data.get(LevelPosition::new(0, 5, 9)), Block::Stone);
}
