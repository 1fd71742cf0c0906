//! Core logic of a tile-maze arcade game: the tile map, the axis-aligned
//! rectangle overlap test, and the per-frame movement update that resolves
//! directional input against map geometry.
//!
//! World coordinates are fixed-point integers: one world unit is 1000
//! coordinate steps, so a tile (30 world units wide) spans `TILE_SIZE`
//! (30_000) steps. Frame time is carried in whole milliseconds. The
//! platform layer (window, OpenGL, event pump) stays outside this crate and
//! feeds plain values in: a time delta, key events, a viewport size.

use vstd::prelude::*;

pub mod collider;
pub mod player;
pub mod tile_map;
pub mod transform;

pub use collider::{Collider, lemma_overlap_self, lemma_overlap_symmetric, overlaps, rects_overlap};
pub use player::Player;
pub use tile_map::{LoadError, MAX_COLS, MAX_ROWS, TILE_SIZE, Tile, TileMap};
pub use transform::{COORD_LIMIT, Rect, Transform};

verus! {

/// A game entity: something with a transform that reacts to the per-frame
/// context. Closed today (the player is the one implementor) but shaped for
/// extension.
pub trait GameObject: Sized {
    /// The transform this object exposes, as contracts see it.
    spec fn transform_spec(&self) -> transform::Transform;

    /// Validity the object maintains across updates.
    spec fn obj_wf(&self) -> bool;

    /// The exact state this object reaches from one update against the
    /// given map and context; each implementor pins its own update rule.
    spec fn updated(&self, map: tile_map::TileMap, ctx: GameContext) -> Self;

    fn get_transform(&self) -> (t: &transform::Transform)
        ensures
            *t == self.transform_spec(),
    ;

    fn update(&mut self, map: &tile_map::TileMap, ctx: &GameContext)
        requires
            old(self).obj_wf(),
            map.wf(),
        ensures
            *final(self) == old(self).updated(*map, *ctx),
            final(self).obj_wf(),
    ;
}

/// The four cardinal facings of a moving entity; there is no diagonal
/// movement.
#[derive(Debug, Clone, Copy, PartialEq, Eq, Structural)]
pub enum Direction {
    Up,
    Down,
    Right,
    Left,
}

/// A key as the platform layer reports it: one of the four arrows, or
/// anything else (ignored by the movement rules).
#[derive(Debug, Clone, Copy, PartialEq, Eq, Structural)]
pub enum GameKey {
    Up,
    Down,
    Right,
    Left,
    Other,
}

/// Viewport size of the latest render tick, in pixels.
#[derive(Debug, Clone, Copy, PartialEq, Eq, Structural)]
pub struct RenderInfo {
    pub width: u32,
    pub height: u32,
}

/// Time elapsed since the previous update tick, in milliseconds.
#[derive(Debug, Clone, Copy, PartialEq, Eq, Structural)]
pub struct UpdateInfo {
    pub dt_ms: u32,
}

/// The latest key event: which key, and whether it was pressed (true) or
/// released (false).
#[derive(Debug, Clone, Copy, PartialEq, Eq, Structural)]
pub struct InputInfo {
    pub key: GameKey,
    pub pressed: bool,
}

/// Per-frame bundle of the latest tick of each kind seen so far. Each field
/// keeps the most recent value until the next tick of that kind arrives;
/// the update step acts only once all three kinds have been seen at least
/// once, so the first frames are no-ops.
#[derive(Debug, Clone, Copy)]
pub struct GameContext {
    pub render_args: Option<RenderInfo>,
    pub update_args: Option<UpdateInfo>,
    pub keys_args: Option<InputInfo>,
}

impl GameContext {
    /// All three tick kinds have been observed at least once.
    pub open spec fn complete(&self) -> bool {
        self.render_args is Some && self.update_args is Some && self.keys_args is Some
    }

    pub fn new() -> (ctx: GameContext)
        ensures
            ctx.render_args is None,
            ctx.update_args is None,
            ctx.keys_args is None,
    {
        GameContext { render_args: None, update_args: None, keys_args: None }
    }

    /// Gate for the frame driver: render and update may run only once every
    /// tick kind has arrived.
    pub fn is_complete(&self) -> (r: bool)
        ensures
            r == self.complete(),
    {
        self.render_args.is_some() && self.update_args.is_some() && self.keys_args.is_some()
    }
}

} // verus!
