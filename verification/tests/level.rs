use chunk_mesher::level::{Level, LevelGrid, MAX_CHUNK_SIZE};

fn classify(normalized: f64) -> Level {
    Level::from_rounded(normalized.round() as u32)
}

#[test]
fn rounded_zero_is_low_and_one_is_high() {
    assert_eq!(Level::from_rounded(0), Level::Low);
    assert_eq!(Level::from_rounded(1), Level::High);
}

#[test]
fn rounded_overshoot_is_high() {
    assert_eq!(Level::from_rounded(2), Level::High);
    assert_eq!(Level::from_rounded(u32::MAX), Level::High);
}

#[test]
fn classifier_threshold_is_one_half() {
    assert_eq!(classify(0.4999), Level::Low);
    assert_eq!(classify(0.5001), Level::High);
    assert_eq!(classify(0.5), Level::High);
    assert_eq!(classify(0.0), Level::Low);
    assert_eq!(classify(1.0), Level::High);
}

#[test]
fn classifier_on_normalized_noise_range() {
    let low = (-0.3f32 + 1.0) / 2.0;
    let high = (0.3f32 + 1.0) / 2.0;
    assert_eq!(Level::from_rounded(low.round() as u32), Level::Low);
    assert_eq!(Level::from_rounded(high.round() as u32), Level::High);
}

#[test]
fn elevation_is_zero_or_wall_height() {
    assert_eq!(Level::Low.elevation(4), 0);
    assert_eq!(Level::High.elevation(4), 4);
    assert_eq!(Level::Low.elevation(0), 0);
    assert_eq!(Level::High.elevation(0), 0);
    assert_eq!(Level::High.elevation(u32::MAX), u32::MAX);
}

#[test]
fn filled_grid_has_one_level() {
    let grid = LevelGrid::filled(3, Level::High).unwrap();
    assert_eq!(grid.size(), 3);
    for x in 0..3 {
        for y in 0..3 {
            assert_eq!(grid.level(x, y), Level::High);
        }
    }
}

#[test]
fn filled_grid_may_be_empty() {
    let grid = LevelGrid::filled(0, Level::Low).unwrap();
    assert_eq!(grid.size(), 0);
}

#[test]
fn filled_refuses_more_than_the_largest_chunk() {
    assert!(LevelGrid::filled(MAX_CHUNK_SIZE + 1, Level::Low).is_none());
    assert!(LevelGrid::filled(u32::MAX, Level::Low).is_none());
}

#[test]
fn largest_chunk_keeps_indices_in_range() {
    let cells = (MAX_CHUNK_SIZE as u64) * (MAX_CHUNK_SIZE as u64);
    assert!(20 * cells <= u32::MAX as u64);
    let next = (MAX_CHUNK_SIZE as u64 + 1) * (MAX_CHUNK_SIZE as u64 + 1);
    assert!(20 * next > u32::MAX as u64);
}

#[test]
fn from_cells_reads_column_by_column() {
    let cells = vec![Level::Low, Level::High, Level::Low, Level::Low, Level::High, Level::High];
    assert!(LevelGrid::from_cells(2, cells).is_none());
    let cells = vec![Level::Low, Level::High, Level::High, Level::High];
    let grid = LevelGrid::from_cells(2, cells).unwrap();
    assert_eq!(grid.size(), 2);
    assert_eq!(grid.level(0, 0), Level::Low);
    assert_eq!(grid.level(0, 1), Level::High);
    assert_eq!(grid.level(1, 0), Level::High);
    assert_eq!(grid.level(1, 1), Level::High);
}

#[test]
fn from_cells_refuses_a_wrong_count() {
    assert!(LevelGrid::from_cells(2, vec![Level::Low; 3]).is_none());
    assert!(LevelGrid::from_cells(2, vec![Level::Low; 5]).is_none());
    assert!(LevelGrid::from_cells(0, vec![Level::Low; 1]).is_none());
    assert!(LevelGrid::from_cells(0, Vec::new()).is_some());
    assert!(LevelGrid::from_cells(MAX_CHUNK_SIZE + 1, Vec::new()).is_none());
}

#[test]
fn set_level_changes_one_cell() {
    let mut grid = LevelGrid::filled(3, Level::Low).unwrap();
    grid.set_level(2, 1, Level::High);
    for x in 0..3 {
        for y in 0..3 {
            let expected = if (x, y) == (2, 1) { Level::High } else { Level::Low };
            assert_eq!(grid.level(x, y), expected);
        }
    }
    grid.set_level(2, 1, Level::Low);
    assert_eq!(grid.level(2, 1), Level::Low);
}
