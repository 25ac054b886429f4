use craftoria::block::block::Block;
use craftoria::chunk::chunk::{IndexableChunkList, CHUNK_SIZE};

fn air() -> IndexableChunkList<Block> {
    IndexableChunkList::<Block> {
        data: Box::new([[[Block::Air; CHUNK_SIZE]; CHUNK_SIZE]; CHUNK_SIZE]),
    }
}

#[test]
fn test_indexable_chunk_list_new() {
    let chunk_list = IndexableChunkList::<Block> {
        data: Box::new([[[Block::Air; CHUNK_SIZE]; CHUNK_SIZE]; CHUNK_SIZE]),
    };
    assert_eq!(chunk_list.data.len(), CHUNK_SIZE);
    assert_eq!(chunk_list.data[0].len(), CHUNK_SIZE);
    assert_eq!(chunk_list.data[0][0].len(), CHUNK_SIZE);
    assert_eq!(chunk_list[(0, 0, 0)], Block::Air);
}

#[test]
fn test_indexable_chunk_list_get() {
    let mut chunk_list = IndexableChunkList::<Block> {
        data: Box::new([[[Block::Air; CHUNK_SIZE]; CHUNK_SIZE]; CHUNK_SIZE]),
    };
    *chunk_list.index_mut((0, 0, 0)) = Block::Stone;
    assert_eq!(chunk_list[(0, 0, 0)], Block::Stone);
    assert_eq!(chunk_list[(0, 0, 1)], Block::Air);
}

#[test]
fn test_indexable_chunk_list_set() {
    let mut chunk_list = IndexableChunkList::<Block> {
        data: Box::new([[[Block::Air; CHUNK_SIZE]; CHUNK_SIZE]; CHUNK_SIZE]),
    };
    *chunk_list.index_mut((0, 0, 0)) = Block::Stone;
    assert_eq!(chunk_list[(0, 0, 0)], Block::Stone);
}

#[test]
fn test_indexable_chunk_list_cycle() {
    let chunk_list = IndexableChunkList::<Block> {
        data: Box::new([[[Block::Air; CHUNK_SIZE]; CHUNK_SIZE]; CHUNK_SIZE]),
    };
    let mut iter = chunk_list.iter();

    let mut count = 0;
    for n in [1, 2, 4, 8, 16, 32, 64, 128, 256, 512, 1024] {
        count += n + 1;
        // Skip n elements
        (0..n).for_each(|_| {
            iter.next();
        });
        if let Some(((x, y, z), _)) = iter.next() {
            let index = y * (CHUNK_SIZE * CHUNK_SIZE) + z * CHUNK_SIZE + x;
            assert_eq!(index, count - 1);
        }
    }
}

#[test]
fn test_indexable_chunk_list_iter() {
    let mut chunk_list = IndexableChunkList::<Block> {
        data: Box::new([[[Block::Air; CHUNK_SIZE]; CHUNK_SIZE]; CHUNK_SIZE]),
    };
    *chunk_list.index_mut((0, 0, 0)) = Block::Stone;
    let mut iter = chunk_list.iter();
    assert_eq!(iter.next(), Some(((0, 0, 0), &Block::Stone)));
    assert_eq!(iter.next(), Some(((1, 0, 0), &Block::Air)));
}

#[test]
fn chunk_list_iterates_every_cell_once_in_layer_order() {
    let chunk_list = air();
    let mut iter = chunk_list.iter();
    let mut count = 0usize;
    while let Some(((x, y, z), _)) = iter.next() {
        assert_eq!(x + z * CHUNK_SIZE + y * CHUNK_SIZE * CHUNK_SIZE, count);
        count += 1;
    }
    assert_eq!(count, CHUNK_SIZE * CHUNK_SIZE * CHUNK_SIZE);
    assert_eq!(iter.next(), None);
}

#[test]
fn chunk_list_try_get_outside_is_absent() {
    let mut chunk_list = air();
    *chunk_list.index_mut((15, 0, 3)) = Block::Dirt;
    assert_eq!(chunk_list.try_get(15, 0, 3), Some(&Block::Dirt));
    assert_eq!(chunk_list.try_get(3, 0, 15), Some(&Block::Air));
    assert_eq!(chunk_list.try_get(-1, 0, 0), None);
    assert_eq!(chunk_list.try_get(0, 16, 0), None);
    assert_eq!(chunk_list.try_get(0, 0, 16), None);
    assert_eq!(chunk_list.try_get(16, 15, 15), None);
}
