use craftoria::level::position::LevelPosition;
use craftoria::utils::position::chunk::{ChunkPosition, ChunkUnit};
use craftoria::utils::position::global::{GlobalPosition, GlobalUnit};

fn global(x: i32, y: i32, z: i32) -> GlobalPosition {
    GlobalPosition(GlobalUnit(x), GlobalUnit(y), GlobalUnit(z))
}

#[test]
fn level_position_basics() {
    let p = LevelPosition::new(1, -2, 3);
    assert_eq!(p.get_xyz(), (1, -2, 3));
    assert_eq!((p.x, p.y, p.z), (1, -2, 3));
    assert_eq!(p.offset(10, 20, -30), LevelPosition::new(11, 18, -27));
    assert_eq!(p.offset(0, 0, 0), p);
    assert_eq!(
        LevelPosition::new(i32::MAX - 1, i32::MIN + 1, 0).offset(1, -1, 0),
        LevelPosition::new(i32::MAX, i32::MIN, 0)
    );
}

#[test]
fn level_position_in_range_is_half_open() {
    assert!(LevelPosition::in_range(0, 16, 0));
    assert!(LevelPosition::in_range(0, 16, 15));
    assert!(!LevelPosition::in_range(0, 16, 16));
    assert!(!LevelPosition::in_range(0, 16, -1));
    assert!(!LevelPosition::in_range(5, 5, 5));
    assert!(LevelPosition::in_range(-3, -1, -2));
}

#[test]
fn level_position_chunk_and_local_round_down() {
    let p = LevelPosition::new(17, -1, -16);
    assert_eq!(p.chunk_xyz(), (1, -1, -1));
    assert_eq!(p.chunk_dxdydz(), (1, 15, 0));
    let q = LevelPosition::new(-17, 31, 0);
    assert_eq!(q.chunk_xyz(), (-2, 1, 0));
    assert_eq!(q.chunk_dxdydz(), (15, 15, 0));
    let far = LevelPosition::new(i32::MIN, i32::MAX, 15);
    assert_eq!(far.chunk_xyz(), (-134217728, 134217727, 0));
    assert_eq!(far.chunk_dxdydz(), (0, 15, 15));
}

#[test]
fn level_position_round_trip_through_chunk() {
    for g in [-1000, -33, -32, -17, -16, -15, -1, 0, 1, 15, 16, 17, 31, 32, 999] {
        let p = LevelPosition::new(g, -g, g + 5);
        let (cx, cy, cz) = p.chunk_xyz();
        let (dx, dy, dz) = p.chunk_dxdydz();
        for d in [dx, dy, dz] {
            assert!((0..16).contains(&d));
        }
        assert_eq!(LevelPosition::from_chunk_xyz(cx, cy, cz).offset(dx, dy, dz), p);
    }
    assert_eq!(LevelPosition::from_chunk_xyz(2, -1, 0), LevelPosition::new(32, -16, 0));
}

#[test]
fn level_position_index_is_a_bijection() {
    let mut seen = vec![false; 4096];
    for y in 0..16 {
        for z in 0..16 {
            for x in 0..16 {
                let p = LevelPosition::new(x, y, z);
                let index = p.buffer_index();
                assert_eq!(index as i32, x + z * 16 + y * 256);
                assert!(!seen[index]);
                seen[index] = true;
                assert_eq!(LevelPosition::from_buffer_index(index), p);
            }
        }
    }
    assert!(seen.iter().all(|s| *s));
    for index in 0..4096 {
        assert_eq!(LevelPosition::from_buffer_index(index).buffer_index(), index);
    }
    assert_eq!(LevelPosition::from_buffer_index(0), LevelPosition::new(0, 0, 0));
    assert_eq!(LevelPosition::from_buffer_index(4095), LevelPosition::new(15, 15, 15));
    assert_eq!(LevelPosition::from_buffer_index(1 + 2 * 16 + 3 * 256), LevelPosition::new(1, 3, 2));
}

#[test]
fn global_position_splits_into_chunk_and_local() {
    let (chunk, local) = global(17, -1, -16).chunk_and_local();
    assert_eq!(chunk, ChunkPosition::new(1, -1, -1));
    assert_eq!(local, global(1, 15, 0));
    let (chunk, local) = global(0, 15, 16).chunk_and_local();
    assert_eq!(chunk, ChunkPosition::new(0, 0, 1));
    assert_eq!(local, global(0, 15, 0));
    let (chunk, local) = global(i32::MIN, i32::MAX, -17).chunk_and_local();
    assert_eq!(chunk, ChunkPosition::new(-134217728, 134217727, -2));
    assert_eq!(local, global(0, 15, 15));
}

#[test]
fn global_position_round_trip() {
    for g in [i32::MIN, -1000, -33, -32, -17, -16, -15, -1, 0, 1, 15, 16, 17, 31, 32, 999, i32::MAX] {
        let p = global(g, g / 2, -(g / 3));
        let (chunk, local) = p.chunk_and_local();
        for d in [local.0 .0, local.1 .0, local.2 .0] {
            assert!((0..16).contains(&d));
        }
        assert_eq!(GlobalPosition::from_chunk_and_local(chunk, local), p);
    }
}

#[test]
fn global_position_join_then_split() {
    let chunk = ChunkPosition::new(-3, 0, 5);
    let local = global(15, 0, 7);
    let p = GlobalPosition::from_chunk_and_local(chunk, local);
    assert_eq!(p, global(-33, 0, 87));
    assert_eq!(p.chunk_and_local(), (chunk, local));
    assert_eq!(GlobalPosition::from_chunk(chunk), global(-48, 0, 80));
}

#[test]
fn global_position_from_impls() {
    let p = global(-20, 5, 40);
    assert_eq!(ChunkPosition::from(p), ChunkPosition::new(-2, 0, 2));
    let both: (ChunkPosition, GlobalPosition) = p.into();
    assert_eq!(both, (ChunkPosition::new(-2, 0, 2), global(12, 5, 8)));
    let units: (GlobalUnit, GlobalUnit, GlobalUnit) = p.into();
    assert_eq!(units, (GlobalUnit(-20), GlobalUnit(5), GlobalUnit(40)));
    assert_eq!(GlobalPosition::from(units), p);
    assert_eq!(GlobalUnit::from(7), GlobalUnit(7));
    assert_eq!(i32::from(GlobalUnit(-7)), -7);
    assert_eq!(ChunkUnit::from(7), ChunkUnit(7));
    assert_eq!(i32::from(ChunkUnit(-7)), -7);
    let c = ChunkPosition::new(1, 2, 3);
    let units: (ChunkUnit, ChunkUnit, ChunkUnit) = c.into();
    assert_eq!(units, (ChunkUnit(1), ChunkUnit(2), ChunkUnit(3)));
    assert_eq!(ChunkPosition::from(units), c);
}

#[test]
fn positions_offset() {
    assert_eq!(global(1, 2, 3).offset(global(-4, 5, 6)), global(-3, 7, 9));
    assert_eq!(
        ChunkPosition::new(1, 2, 3).offset(ChunkPosition::new(-4, 5, 6)),
        ChunkPosition::new(-3, 7, 9)
    );
}

#[test]
fn global_position_index_is_a_bijection() {
    let mut seen = vec![false; 4096];
    for y in 0..16 {
        for z in 0..16 {
            for x in 0..16 {
                let index = global(x, y, z).to_index();
                assert_eq!(index as i32, x + z * 16 + y * 256);
                assert!(!seen[index]);
                seen[index] = true;
                assert_eq!(GlobalPosition::from_index(index), global(x, y, z));
            }
        }
    }
    assert!(seen.iter().all(|s| *s));
    assert_eq!(GlobalPosition::from_index(4095), global(15, 15, 15));
    assert_eq!(GlobalPosition::from_index(16), global(0, 0, 1));
    assert_eq!(GlobalPosition::from_index(256), global(0, 1, 0));
}
