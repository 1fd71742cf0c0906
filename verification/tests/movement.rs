use pacman::{
    Direction, GameContext, GameKey, GameObject, InputInfo, Player, RenderInfo, TILE_SIZE, TileMap,
    UpdateInfo,
};

fn open_map(cols: usize, rows: usize) -> TileMap {
    let mut src = String::new();
    for _ in 0..rows {
        for _ in 0..cols {
            src.push('0');
        }
        src.push('\n');
    }
    TileMap::new(&src).unwrap()
}

fn ctx(dt_ms: u32, key: GameKey, pressed: bool) -> GameContext {
    GameContext {
        render_args: Some(RenderInfo { width: 360, height: 420 }),
        update_args: Some(UpdateInfo { dt_ms }),
        keys_args: Some(InputInfo { key, pressed }),
    }
}

// The spawn scenario: at grid cell (row 13, column 10), facing right, one
// tile per second, a tenth of a second moves the entity 3 world units
// (3000 coordinate steps) along x.
#[test]
fn tenth_second_moves_three_units_right() {
    let map = open_map(12, 14);
    let mut p = Player::new();
    let old_x = p.transform.x;
    let old_y = p.transform.y;
    p.update(&map, &ctx(100, GameKey::Other, false));
    assert_eq!(p.transform.x, old_x + 3_000);
    assert_eq!(p.transform.y, old_y);
    assert_eq!(p.transform.direction, Direction::Right);
}

#[test]
fn facing_persists_without_fresh_input() {
    let map = open_map(12, 14);
    let mut p = Player::new();
    let old_x = p.transform.x;
    let idle = ctx(100, GameKey::Other, false);
    p.update(&map, &idle);
    p.update(&map, &idle);
    assert_eq!(p.transform.x, old_x + 6_000);
    assert_eq!(p.transform.direction, Direction::Right);
}

#[test]
fn arrow_press_turns_and_moves() {
    let map = open_map(12, 14);
    let mut p = Player::new();
    let old_y = p.transform.y;
    p.update(&map, &ctx(100, GameKey::Up, true));
    assert_eq!(p.transform.direction, Direction::Up);
    assert_eq!(p.transform.y, old_y - 3_000);
}

#[test]
fn key_release_keeps_facing() {
    let map = open_map(12, 14);
    let mut p = Player::new();
    p.update(&map, &ctx(100, GameKey::Up, false));
    assert_eq!(p.transform.direction, Direction::Right);
}

#[test]
fn wall_blocks_commit_entirely() {
    // One row, second cell a wall: a right move into it changes nothing,
    // not even the facing.
    let map = TileMap::new("01\n").unwrap();
    let mut p = Player::new();
    p.transform.x = 0;
    p.transform.y = 0;
    let before = p.transform;
    p.update(&map, &ctx(1_000, GameKey::Right, true));
    assert_eq!(p.transform, before);
}

#[test]
fn map_edge_blocks_like_a_wall() {
    // A single walkable tile: any far enough move leaves the grid and is
    // rejected rather than crashing.
    let map = TileMap::new("0\n").unwrap();
    let mut p = Player::new();
    p.transform.x = 0;
    p.transform.y = 0;
    let before = p.transform;
    p.update(&map, &ctx(1_000, GameKey::Down, true));
    assert_eq!(p.transform, before);
    p.update(&map, &ctx(1_000, GameKey::Up, true));
    assert_eq!(p.transform, before);
}

#[test]
fn no_tick_kind_missing_means_no_op() {
    let map = open_map(12, 14);
    let mut p = Player::new();
    let before = p.transform;

    let mut c = GameContext::new();
    assert!(!c.is_complete());
    p.update(&map, &c);
    assert_eq!(p.transform, before);

    c.update_args = Some(UpdateInfo { dt_ms: 100 });
    c.keys_args = Some(InputInfo { key: GameKey::Right, pressed: true });
    assert!(!c.is_complete());
    p.update(&map, &c);
    assert_eq!(p.transform, before);

    c.render_args = Some(RenderInfo { width: 360, height: 420 });
    assert!(c.is_complete());
    p.update(&map, &c);
    assert_eq!(p.transform.x, before.x + 3_000);
}

#[test]
fn horizontal_lookup_checks_ceiling_column() {
    // Row of three: walkable, walkable, wall. From inside the first tile a
    // small right step stays within column 1 and is allowed; from the tile
    // boundary at column 1 a step toward the wall is refused.
    let map = TileMap::new("001\n").unwrap();

    assert!(Player::can_move(&map, 10_000, 0, Direction::Right));
    assert!(!Player::can_move(&map, TILE_SIZE + 10_000, 0, Direction::Right));
    // Left shares the same single-cell rule on the ceiling column.
    assert!(Player::can_move(&map, 10_000, 0, Direction::Left));
    assert!(!Player::can_move(&map, TILE_SIZE + 10_000, 0, Direction::Left));
}

#[test]
fn vertical_lookup_checks_both_columns() {
    // Two rows; the cell below and right of the start is a wall, so a
    // downward move astride both columns is refused, while one aligned
    // with the left column is allowed.
    let map = TileMap::new("00\n01\n").unwrap();
    assert!(!Player::can_move(&map, 10_000, 10_000, Direction::Down));
    assert!(Player::can_move(&map, 0, 10_000, Direction::Down));
    // Upward, the floor row is checked with both columns in the same way.
    let map_up = TileMap::new("01\n00\n").unwrap();
    assert!(Player::can_move(&map_up, 10_000, 40_000, Direction::Up));
    assert!(!Player::can_move(&map_up, 10_000, 10_000, Direction::Up));
}

#[test]
fn negative_destination_is_blocked() {
    let map = open_map(2, 2);
    assert!(!Player::can_move(&map, -1, 0, Direction::Left));
    assert!(!Player::can_move(&map, 0, -1, Direction::Up));
    assert!(Player::can_move(&map, 0, 0, Direction::Up));
}
