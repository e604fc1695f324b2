use vstd::prelude::*;

verus! {

/// Tint multiplied onto a sprite by the renderer.
#[derive(Clone, Copy, Debug, PartialEq, Eq)]
pub enum TileColor {
    Beige,
    Green,
    Gray,
    Brown,
}

/// One placed tile: grid position, sprite-sheet variant id, tint, and
/// draw-order layer. Immutable once created.
#[derive(Clone, Copy, Debug, PartialEq, Eq)]
pub struct Tile {
    pub pos: (i32, i32),
    pub sprite: usize,
    pub color: TileColor,
    pub z_index: i32,
}

impl Tile {
    pub fn new(pos: (i32, i32), sprite: usize, z_index: i32, color: TileColor) -> (t: Tile)
        ensures
            t == (Tile { pos, sprite, color, z_index }),
    {
        Tile { pos, sprite, color, z_index }
    }
}

/// Sprite-sheet index of the mountain feature tile.
pub const SPRITE_MOUNTAIN: usize = 1;

/// Sprite-sheet index of the small tree feature tile.
pub const SPRITE_SMALL_TREE: usize = 6;

/// First of the three large-tree variants (indices 7, 8, 9).
pub const SPRITE_BIG_TREE_BASE: usize = 7;

/// First of the two bones-decoration variants (indices 18, 19).
pub const SPRITE_BONES_BASE: usize = 18;

/// The rarer of the two house variants.
pub const SPRITE_HOUSE_RARE: usize = 12;

/// The common house variant.
pub const SPRITE_HOUSE_COMMON: usize = 13;

/// Draw layer of ground tiles.
pub const LAYER_GROUND: i32 = 0;

/// Draw layer of feature tiles (drawn above ground).
pub const LAYER_FEATURE: i32 = 1;

} // verus!
