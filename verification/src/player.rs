//! The player entity and the per-frame movement rules: resolve the latest
//! key input into a facing, scale the velocity by the frame's time delta,
//! and commit the move only if the destination cells are walkable.

use vstd::prelude::*;
use crate::{Direction, GameContext, GameKey, GameObject, InputInfo};
use crate::collider::{Collider, overlaps};
use crate::tile_map::{TILE_SIZE, TileMap};
use crate::transform::Transform;

verus! {

/// Grid row or column whose near edge a coordinate lies in.
pub open spec fn cell_floor(v: int) -> int {
    v / (TILE_SIZE as int)
}

/// Grid row or column whose far edge a coordinate reaches into.
pub open spec fn cell_ceil(v: int) -> int {
    (v + TILE_SIZE - 1) / (TILE_SIZE as int)
}

/// The facing a key event selects: an arrow press picks its direction, and
/// anything else (a release, or a key that is not an arrow) keeps the
/// current one.
pub open spec fn new_direction_spec(cur: Direction, input: InputInfo) -> Direction {
    if input.pressed {
        match input.key {
            GameKey::Up => Direction::Up,
            GameKey::Down => Direction::Down,
            GameKey::Right => Direction::Right,
            GameKey::Left => Direction::Left,
            GameKey::Other => cur,
        }
    } else {
        cur
    }
}

/// Distance covered in `dt_ms` milliseconds at `speed` coordinate steps per
/// second, rounded down to whole steps.
pub open spec fn displacement(speed: int, dt_ms: int) -> int {
    speed * dt_ms / 1000
}

/// Candidate x after one frame: only horizontal facings change it, left
/// decreasing and right increasing.
pub open spec fn candidate_x(t: Transform, dir: Direction, dt_ms: int) -> int {
    match dir {
        Direction::Right => t.x + displacement(t.velocity_x as int, dt_ms),
        Direction::Left => t.x - displacement(t.velocity_x as int, dt_ms),
        _ => t.x as int,
    }
}

/// Candidate y after one frame: only vertical facings change it, up
/// decreasing and down increasing.
pub open spec fn candidate_y(t: Transform, dir: Direction, dt_ms: int) -> int {
    match dir {
        Direction::Up => t.y - displacement(t.velocity_y as int, dt_ms),
        Direction::Down => t.y + displacement(t.velocity_y as int, dt_ms),
        _ => t.y as int,
    }
}

/// Whether a move to `(dest_x, dest_y)` heading `dir` is allowed: the grid
/// cells the moving edge would occupy must all be walkable. Negative or
/// otherwise out-of-range destinations count as blocked, never as a crash.
/// Horizontal moves check the single cell at the floor row and ceiling
/// column — one distinct cell, not two; this narrow-corridor permissiveness
/// is deliberate and kept symmetric between left and right.
pub open spec fn can_move_spec(map: TileMap, dest_x: int, dest_y: int, dir: Direction) -> bool {
    &&& 0 <= dest_x
    &&& 0 <= dest_y
    &&& match dir {
        Direction::Up => map.walkable_at(cell_floor(dest_y), cell_floor(dest_x))
            && map.walkable_at(cell_floor(dest_y), cell_ceil(dest_x)),
        Direction::Down => map.walkable_at(cell_ceil(dest_y), cell_floor(dest_x))
            && map.walkable_at(cell_ceil(dest_y), cell_ceil(dest_x)),
        Direction::Right => map.walkable_at(cell_floor(dest_y), cell_ceil(dest_x)),
        Direction::Left => map.walkable_at(cell_floor(dest_y), cell_ceil(dest_x)),
    }
}

/// A key event that picks a fresh facing: an arrow key, pressed.
pub open spec fn selects_direction(input: InputInfo) -> bool {
    input.pressed && input.key != GameKey::Other
}

/// The player-controlled entity: a transform, updated once per frame.
#[derive(Debug, Clone, Copy, PartialEq, Eq, Structural)]
pub struct Player {
    pub transform: Transform,
}

impl Player {
    /// Spawn at grid cell (row 13, column 10), facing right, a 20-unit
    /// square moving one tile per second on each axis.
    pub fn new() -> (p: Player)
        ensures
            p.transform.x == 10 * TILE_SIZE,
            p.transform.y == 13 * TILE_SIZE,
            p.transform.direction == Direction::Right,
            p.transform.width == 20_000,
            p.transform.height == 20_000,
            p.transform.velocity_x == TILE_SIZE,
            p.transform.velocity_y == TILE_SIZE,
            p.transform.wf(),
    {
        Player {
            transform: Transform {
                x: 10 * TILE_SIZE,
                y: 13 * TILE_SIZE,
                direction: Direction::Right,
                width: 20_000,
                height: 20_000,
                velocity_x: TILE_SIZE,
                velocity_y: TILE_SIZE,
            },
        }
    }

    /// The exact state one frame produces: nothing until every tick kind
    /// has been seen; then the input picks the facing, the velocity scaled
    /// by the time delta gives the candidate position, and the move commits
    /// all-or-nothing — position and facing change together or not at all.
    pub open spec fn step(&self, map: TileMap, ctx: GameContext) -> Player {
        if ctx.complete() {
            let dt = ctx.update_args->Some_0.dt_ms as int;
            let nd = new_direction_spec(self.transform.direction, ctx.keys_args->Some_0);
            let nx = candidate_x(self.transform, nd, dt);
            let ny = candidate_y(self.transform, nd, dt);
            if can_move_spec(map, nx, ny, nd) {
                Player {
                    transform: Transform {
                        x: nx as i64,
                        y: ny as i64,
                        direction: nd,
                        width: self.transform.width,
                        height: self.transform.height,
                        velocity_x: self.transform.velocity_x,
                        velocity_y: self.transform.velocity_y,
                    },
                }
            } else {
                *self
            }
        } else {
            *self
        }
    }

    /// Executable walkability gate for a candidate destination; decides
    /// exactly as `can_move_spec`.
    pub fn can_move(map: &TileMap, dest_x: i64, dest_y: i64, new_direction: Direction) -> (r: bool)
        requires
            dest_x <= i64::MAX - TILE_SIZE,
            dest_y <= i64::MAX - TILE_SIZE,
        ensures
            r == can_move_spec(*map, dest_x as int, dest_y as int, new_direction),
    {
        if dest_x < 0 || dest_y < 0 {
            return false;
        }
        let xu = dest_x as u64;
        let yu = dest_y as u64;
        let tile = TILE_SIZE as u64;
        let row_floor = yu / tile;
        let row_ceil = (yu + (tile - 1)) / tile;
        let col_floor = xu / tile;
        let col_ceil = (xu + (tile - 1)) / tile;
        match new_direction {
            Direction::Up => map.is_walkable_at(row_floor, col_floor) && map.is_walkable_at(
                row_floor,
                col_ceil,
            ),
            Direction::Down => map.is_walkable_at(row_ceil, col_floor) && map.is_walkable_at(
                row_ceil,
                col_ceil,
            ),
            Direction::Right => map.is_walkable_at(row_floor, col_ceil),
            Direction::Left => map.is_walkable_at(row_floor, col_ceil),
        }
    }
}

/// The single-cell lookup rule for horizontal moves is the same for both
/// facings: at any destination, moving left is allowed exactly when moving
/// right is.
pub proof fn lemma_horizontal_lookup_symmetric(map: TileMap, dest_x: int, dest_y: int)
    ensures
        can_move_spec(map, dest_x, dest_y, Direction::Left) == can_move_spec(
            map,
            dest_x,
            dest_y,
            Direction::Right,
        ),
{
}

/// Movement is all-or-nothing: once every tick kind has been seen, a frame
/// whose candidate cells (per the facing's lookup rule) are all walkable
/// moves the entity by exactly the velocity scaled by the time delta along
/// the chosen facing's axis and commits that facing; a frame whose lookup
/// hits a wall or leaves the grid changes nothing — neither position nor
/// facing.
pub proof fn lemma_step_all_or_nothing(p: Player, map: TileMap, ctx: GameContext)
    requires
        p.transform.wf(),
        ctx.complete(),
    ensures
        ({
            let dt = ctx.update_args->Some_0.dt_ms as int;
            let nd = new_direction_spec(p.transform.direction, ctx.keys_args->Some_0);
            let nx = candidate_x(p.transform, nd, dt);
            let ny = candidate_y(p.transform, nd, dt);
            let next = p.step(map, ctx);
            &&& (can_move_spec(map, nx, ny, nd) ==> next.transform.x == nx && next.transform.y
                == ny && next.transform.direction == nd && next.transform.width
                == p.transform.width && next.transform.height == p.transform.height
                && next.transform.velocity_x == p.transform.velocity_x
                && next.transform.velocity_y == p.transform.velocity_y)
            &&& (!can_move_spec(map, nx, ny, nd) ==> next == p)
        }),
{
    let dt = ctx.update_args->Some_0.dt_ms as int;
    let vx = p.transform.velocity_x as int;
    let vy = p.transform.velocity_y as int;
    assert(0 <= vx * dt <= 0x1_0000_0000_0000_0000 && 0 <= vy * dt <= 0x1_0000_0000_0000_0000)
        by (nonlinear_arith)
        requires
            0 <= vx <= 1_000_000_000,
            0 <= vy <= 1_000_000_000,
            0 <= dt < 0x1_0000_0000,
    ;
}

/// A committed facing persists on its own: when every tick kind has been
/// seen but the latest key event selects no fresh direction, a frame keeps
/// the entity's facing and attempts exactly the move that facing dictates —
/// the entity keeps travelling its way without the key being pressed again.
pub proof fn lemma_idle_input_continues(p: Player, map: TileMap, ctx: GameContext)
    requires
        p.transform.wf(),
        ctx.complete(),
        !selects_direction(ctx.keys_args->Some_0),
    ensures
        ({
            let dt = ctx.update_args->Some_0.dt_ms as int;
            let dir = p.transform.direction;
            let nx = candidate_x(p.transform, dir, dt);
            let ny = candidate_y(p.transform, dir, dt);
            &&& p.step(map, ctx).transform.direction == dir
            &&& (can_move_spec(map, nx, ny, dir) ==> p.step(map, ctx).transform.x == nx && p.step(
                map,
                ctx,
            ).transform.y == ny)
            &&& (!can_move_spec(map, nx, ny, dir) ==> p.step(map, ctx) == p)
        }),
{
    assert(new_direction_spec(p.transform.direction, ctx.keys_args->Some_0)
        == p.transform.direction);
    let dt = ctx.update_args->Some_0.dt_ms as int;
    let vx = p.transform.velocity_x as int;
    let vy = p.transform.velocity_y as int;
    assert(0 <= vx * dt <= 0x1_0000_0000_0000_0000 && 0 <= vy * dt <= 0x1_0000_0000_0000_0000)
        by (nonlinear_arith)
        requires
            0 <= vx <= 1_000_000_000,
            0 <= vy <= 1_000_000_000,
            0 <= dt < 0x1_0000_0000,
    ;
}

impl GameObject for Player {
    open spec fn transform_spec(&self) -> Transform {
        self.transform
    }

    open spec fn obj_wf(&self) -> bool {
        self.transform.wf()
    }

    open spec fn updated(&self, map: TileMap, ctx: GameContext) -> Player {
        self.step(map, ctx)
    }

    fn get_transform(&self) -> &Transform {
        &self.transform
    }

    fn update(&mut self, map: &TileMap, ctx: &GameContext) {
        if ctx.render_args.is_none() || ctx.update_args.is_none() || ctx.keys_args.is_none() {
            return;
        }
        let keys = ctx.keys_args.unwrap();
        let dt_ms = ctx.update_args.unwrap().dt_ms;

        let mut new_dir = self.transform.direction;
        if keys.pressed {
            match keys.key {
                GameKey::Up => new_dir = Direction::Up,
                GameKey::Down => new_dir = Direction::Down,
                GameKey::Right => new_dir = Direction::Right,
                GameKey::Left => new_dir = Direction::Left,
                GameKey::Other => {},
            }
        }

        let vx = self.transform.velocity_x as u64;
        let vy = self.transform.velocity_y as u64;
        let dt64 = dt_ms as u64;
        proof {
            assert(vx * dt64 < 0x8000_0000_0000_0000 && vy * dt64 < 0x8000_0000_0000_0000)
                by (nonlinear_arith)
                requires
                    vx <= 1_000_000_000u64,
                    vy <= 1_000_000_000u64,
                    dt64 < 0x1_0000_0000u64,
            ;
        }
        let disp_x = vx * dt64 / 1000;
        let disp_y = vy * dt64 / 1000;

        let mut new_x = self.transform.x;
        let mut new_y = self.transform.y;
        match new_dir {
            Direction::Up => new_y = new_y - (disp_y as i64),
            Direction::Down => new_y = new_y + (disp_y as i64),
            Direction::Right => new_x = new_x + (disp_x as i64),
            Direction::Left => new_x = new_x - (disp_x as i64),
        }

        if Self::can_move(map, new_x, new_y, new_dir) {
            self.transform.x = new_x;
            self.transform.y = new_y;
            self.transform.direction = new_dir;
        }
    }
}

impl Collider for Player {
    open spec fn transform_spec(&self) -> Transform {
        self.transform
    }

    fn get_transform(&self) -> &Transform {
        &self.transform
    }

    fn intersects(&self, other: &Transform) -> bool {
        overlaps(&self.transform, other)
    }

    fn collide<T: GameObject>(&self, game_obj: &T) -> bool {
        overlaps(&self.transform, GameObject::get_transform(game_obj))
    }
}

} // verus!
