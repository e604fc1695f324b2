use vstd::prelude::*;

use crate::config::ThresholdConfig;
use crate::tile::{
    Tile, TileColor, LAYER_FEATURE, SPRITE_BIG_TREE_BASE, SPRITE_BONES_BASE, SPRITE_HOUSE_COMMON,
    SPRITE_HOUSE_RARE, SPRITE_MOUNTAIN, SPRITE_SMALL_TREE,
};

verus! {

/// The per-cell choice value is uniform in `[0, CHOICE_UNIT)`, in
/// thousandths of the unit interval.
pub const CHOICE_UNIT: usize = 1000;

/// Choice at or above this emits a large tree inside the forest band
/// (a 10% chance).
pub const CHOICE_BIG_TREE: usize = 900;

/// Choice at or above this (but below the large-tree cut) emits a small
/// tree inside the forest band (a further 10% chance).
pub const CHOICE_SMALL_TREE: usize = 800;

/// Choice at or above this emits the rare decorations — bones inside
/// their band, houses above their threshold (a 2% chance).
pub const CHOICE_RARE: usize = 980;

/// House pick at or above this selects the rarer house variant
/// (a 15% chance).
pub const HOUSE_RARE_CUT: usize = 850;

/// Number of large-tree sprite variants.
pub const TREE_VARIANTS: usize = 3;

/// Number of bones sprite variants.
pub const BONES_VARIANTS: usize = 2;

/// The mountain feature: emitted when the noise value lies strictly
/// inside the mountain band.
pub open spec fn spec_mountain_part(x: i32, y: i32, n: i32, cfg: ThresholdConfig) -> Seq<Tile> {
    if cfg.mountain.spec_strictly_inside(n) {
        seq![
            Tile {
                pos: (x, y),
                sprite: SPRITE_MOUNTAIN,
                color: TileColor::Beige,
                z_index: LAYER_FEATURE,
            },
        ]
    } else {
        Seq::empty()
    }
}

/// The tree feature: inside the forest band, a high choice emits one of
/// the large-tree variants, a middling choice the small tree.
pub open spec fn spec_tree_part(
    x: i32,
    y: i32,
    n: i32,
    choice: usize,
    tree_pick: usize,
    cfg: ThresholdConfig,
) -> Seq<Tile> {
    if cfg.forest.spec_strictly_inside(n) {
        if choice >= CHOICE_BIG_TREE {
            seq![
                Tile {
                    pos: (x, y),
                    sprite: (SPRITE_BIG_TREE_BASE + tree_pick) as usize,
                    color: TileColor::Green,
                    z_index: LAYER_FEATURE,
                },
            ]
        } else if choice >= CHOICE_SMALL_TREE {
            seq![
                Tile {
                    pos: (x, y),
                    sprite: SPRITE_SMALL_TREE,
                    color: TileColor::Green,
                    z_index: LAYER_FEATURE,
                },
            ]
        } else {
            Seq::empty()
        }
    } else {
        Seq::empty()
    }
}

/// The bones decoration: inside the bones band, only on a rare choice.
pub open spec fn spec_bones_part(
    x: i32,
    y: i32,
    n: i32,
    choice: usize,
    bone_pick: usize,
    cfg: ThresholdConfig,
) -> Seq<Tile> {
    if cfg.bones.spec_strictly_inside(n) && choice >= CHOICE_RARE {
        seq![
            Tile {
                pos: (x, y),
                sprite: (SPRITE_BONES_BASE + bone_pick) as usize,
                color: TileColor::Gray,
                z_index: LAYER_FEATURE,
            },
        ]
    } else {
        Seq::empty()
    }
}

/// The house: above the house threshold, only on a rare choice, with the
/// rarer of two variants selected by the house pick.
pub open spec fn spec_house_part(
    x: i32,
    y: i32,
    n: i32,
    choice: usize,
    house_pick: usize,
    cfg: ThresholdConfig,
) -> Seq<Tile> {
    if n > cfg.house_threshold && choice >= CHOICE_RARE {
        seq![
            Tile {
                pos: (x, y),
                sprite: if house_pick >= HOUSE_RARE_CUT {
                    SPRITE_HOUSE_RARE
                } else {
                    SPRITE_HOUSE_COMMON
                },
                color: TileColor::Brown,
                z_index: LAYER_FEATURE,
            },
        ]
    } else {
        Seq::empty()
    }
}

/// All feature tiles of one cell, in emission order. The bands are
/// evaluated independently: a cell may match several and emit several
/// tiles.
pub open spec fn spec_cell_features(
    x: i32,
    y: i32,
    n: i32,
    choice: usize,
    tree_pick: usize,
    bone_pick: usize,
    house_pick: usize,
    cfg: ThresholdConfig,
) -> Seq<Tile> {
    spec_mountain_part(x, y, n, cfg) + spec_tree_part(x, y, n, choice, tree_pick, cfg)
        + spec_bones_part(x, y, n, choice, bone_pick, cfg) + spec_house_part(
        x,
        y,
        n,
        choice,
        house_pick,
        cfg,
    )
}

/// Pass-1 classification of one cell from its noise value `n` and its
/// random draws. Returns whether the cell joins the occupied set — noise
/// strictly above the ground threshold — and the cell's feature tiles.
pub fn classify_cell(
    x: i32,
    y: i32,
    n: i32,
    choice: usize,
    tree_pick: usize,
    bone_pick: usize,
    house_pick: usize,
    cfg: &ThresholdConfig,
) -> (r: (bool, Vec<Tile>))
    requires
        tree_pick < TREE_VARIANTS,
        bone_pick < BONES_VARIANTS,
    ensures
        r.0 == (n > cfg.ground_threshold),
        r.1@ == spec_cell_features(x, y, n, choice, tree_pick, bone_pick, house_pick, *cfg),
{
    let mut tiles: Vec<Tile> = Vec::new();
    if cfg.mountain.strictly_inside(n) {
        tiles.push(Tile::new((x, y), SPRITE_MOUNTAIN, LAYER_FEATURE, TileColor::Beige));
    }
    if cfg.forest.strictly_inside(n) {
        if choice >= CHOICE_BIG_TREE {
            tiles.push(
                Tile::new(
                    (x, y),
                    SPRITE_BIG_TREE_BASE + tree_pick,
                    LAYER_FEATURE,
                    TileColor::Green,
                ),
            );
        } else if choice >= CHOICE_SMALL_TREE {
            tiles.push(Tile::new((x, y), SPRITE_SMALL_TREE, LAYER_FEATURE, TileColor::Green));
        }
    }
    if cfg.bones.strictly_inside(n) && choice >= CHOICE_RARE {
        tiles.push(Tile::new((x, y), SPRITE_BONES_BASE + bone_pick, LAYER_FEATURE, TileColor::Gray));
    }
    if n > cfg.house_threshold && choice >= CHOICE_RARE {
        let sprite = if house_pick >= HOUSE_RARE_CUT {
            SPRITE_HOUSE_RARE
        } else {
            SPRITE_HOUSE_COMMON
        };
        tiles.push(Tile::new((x, y), sprite, LAYER_FEATURE, TileColor::Brown));
    }
    proof {
        assert(tiles@ =~= spec_cell_features(x, y, n, choice, tree_pick, bone_pick, house_pick, *cfg));
    }
    (n > cfg.ground_threshold, tiles)
}

} // verus!
