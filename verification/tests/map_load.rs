use pacman::{LoadError, TILE_SIZE, TileMap};

#[test]
fn two_by_two_round_trip() {
    let map = TileMap::new("00\n01\n").unwrap();
    assert_eq!(map.dimensions(), (2, 2));
    assert!(map.is_walkable_at(0, 0));
    assert!(map.is_walkable_at(0, 1));
    assert!(map.is_walkable_at(1, 0));
    assert!(!map.is_walkable_at(1, 1));
}

#[test]
fn trailing_newline_is_optional() {
    let with = TileMap::new("00\n01\n").unwrap();
    let without = TileMap::new("00\n01").unwrap();
    assert_eq!(with.dimensions(), without.dimensions());
    for r in 0..2u64 {
        for c in 0..2u64 {
            assert_eq!(with.is_walkable_at(r, c), without.is_walkable_at(r, c));
        }
    }
}

#[test]
fn non_digit_fails_load() {
    assert!(matches!(TileMap::new("0a\n"), Err(LoadError::NonDigit)));
}

#[test]
fn empty_source_fails_load() {
    assert!(matches!(TileMap::new(""), Err(LoadError::Empty)));
    assert!(matches!(TileMap::new("\n"), Err(LoadError::Empty)));
}

#[test]
fn ragged_rows_fail_load() {
    assert!(matches!(TileMap::new("00\n0\n"), Err(LoadError::Ragged)));
}

#[test]
fn shape_faults_take_precedence_over_characters() {
    // Both ragged and holding a non-digit: the shape fault wins.
    assert!(matches!(TileMap::new("0a\n0\n"), Err(LoadError::Ragged)));
}

#[test]
fn oversized_grid_fails_load() {
    let wide = "0".repeat(10_001);
    assert!(matches!(TileMap::new(&wide), Err(LoadError::TooLarge)));
}

#[test]
fn widest_allowed_grid_loads() {
    let wide = "0".repeat(10_000);
    let map = TileMap::new(&wide).unwrap();
    assert_eq!(map.dimensions(), (10_000, 1));
    assert!(map.is_walkable_at(0, 9_999));
    assert!(!map.is_walkable_at(0, 10_000));
    assert!(!map.is_walkable_at(1, 0));
}

#[test]
fn nonzero_digits_are_walls() {
    let map = TileMap::new("0123456789\n").unwrap();
    assert!(map.is_walkable_at(0, 0));
    for c in 1..10u64 {
        assert!(!map.is_walkable_at(0, c));
    }
}

#[test]
fn tiles_carry_their_bounds() {
    let map = TileMap::new("00\n01\n").unwrap();
    let tile = &map.tiles[1][1];
    assert!(!tile.is_empty);
    assert_eq!(tile.transform.x, TILE_SIZE);
    assert_eq!(tile.transform.y, TILE_SIZE);
    assert_eq!(tile.transform.width, TILE_SIZE);
    assert_eq!(tile.transform.height, TILE_SIZE);
}
