use tilegen::classify::classify_cell;
use tilegen::config::{Band, ConfigError, ThresholdConfig};
use tilegen::occupied::OccupiedSet;
use tilegen::tile::{Tile, TileColor};

fn default_config() -> ThresholdConfig {
    ThresholdConfig::default()
}

#[test]
fn default_config_is_valid() {
    let cfg = default_config();
    assert_eq!(cfg.ground_threshold, 200);
    assert_eq!(cfg.mountain, Band { low: 300, high: 310 });
    assert_eq!(cfg.forest, Band { low: 350, high: 600 });
    assert_eq!(cfg.bones, Band { low: 600, high: 700 });
    assert_eq!(cfg.house_threshold, 700);
    assert_eq!(cfg.noise_scale, 10500);
    assert_eq!(cfg.validate(), Ok(()));
}

#[test]
fn invalid_mountain_range_is_rejected() {
    let mut cfg = default_config();
    cfg.mountain = Band { low: 320, high: 300 };
    assert_eq!(cfg.validate(), Err(ConfigError::MountainRange));
}

#[test]
fn invalid_forest_and_bones_ranges_are_rejected() {
    let mut cfg = default_config();
    cfg.forest = Band { low: 700, high: 350 };
    assert_eq!(cfg.validate(), Err(ConfigError::ForestRange));

    let mut cfg = default_config();
    cfg.bones = Band { low: 701, high: 700 };
    assert_eq!(cfg.validate(), Err(ConfigError::BoneRange));

    let mut cfg = default_config();
    cfg.noise_scale = 0;
    assert_eq!(cfg.validate(), Err(ConfigError::NoiseScale));
}

#[test]
fn validation_names_the_first_invalid_field() {
    let mut cfg = default_config();
    cfg.mountain = Band { low: 1, high: 0 };
    cfg.bones = Band { low: 1, high: 0 };
    assert_eq!(cfg.validate(), Err(ConfigError::MountainRange));
}

#[test]
fn mountain_band_emits_mountain_tile() {
    // Noise 0.305 sits strictly inside the default mountain band.
    let cfg = default_config();
    let (ground, tiles) = classify_cell(4, -2, 305, 0, 0, 0, 0, &cfg);
    assert!(ground);
    assert_eq!(
        tiles,
        vec![Tile { pos: (4, -2), sprite: 1, color: TileColor::Beige, z_index: 1 }]
    );
}

#[test]
fn ground_threshold_is_strict() {
    let cfg = default_config();
    let (ground, tiles) = classify_cell(0, 0, 200, 0, 0, 0, 0, &cfg);
    assert!(!ground);
    assert!(tiles.is_empty());
    let (ground, _) = classify_cell(0, 0, 201, 0, 0, 0, 0, &cfg);
    assert!(ground);
}

#[test]
fn mountain_band_bounds_are_strict() {
    let cfg = default_config();
    let (_, at_low) = classify_cell(0, 0, 300, 0, 0, 0, 0, &cfg);
    assert!(at_low.is_empty());
    let (_, at_high) = classify_cell(0, 0, 310, 0, 0, 0, 0, &cfg);
    assert!(at_high.is_empty());
    let (_, inside) = classify_cell(0, 0, 309, 0, 0, 0, 0, &cfg);
    assert_eq!(inside.len(), 1);
}

#[test]
fn tree_choice_split() {
    let cfg = default_config();
    // High choice: one of the large-tree variants, by the tree pick.
    let (_, tiles) = classify_cell(1, 2, 400, 900, 2, 0, 0, &cfg);
    assert_eq!(
        tiles,
        vec![Tile { pos: (1, 2), sprite: 9, color: TileColor::Green, z_index: 1 }]
    );
    // Middling choice: the small tree.
    let (_, tiles) = classify_cell(1, 2, 400, 899, 2, 0, 0, &cfg);
    assert_eq!(
        tiles,
        vec![Tile { pos: (1, 2), sprite: 6, color: TileColor::Green, z_index: 1 }]
    );
    // Low choice: nothing.
    let (_, tiles) = classify_cell(1, 2, 400, 799, 2, 0, 0, &cfg);
    assert!(tiles.is_empty());
}

#[test]
fn bones_are_rare_and_variant_picked() {
    let cfg = default_config();
    let (_, tiles) = classify_cell(0, 0, 650, 980, 0, 1, 0, &cfg);
    assert_eq!(
        tiles,
        vec![Tile { pos: (0, 0), sprite: 19, color: TileColor::Gray, z_index: 1 }]
    );
    let (_, tiles) = classify_cell(0, 0, 650, 979, 0, 1, 0, &cfg);
    assert!(tiles.is_empty());
}

#[test]
fn house_variant_split() {
    let cfg = default_config();
    let (_, tiles) = classify_cell(0, 0, 800, 990, 0, 0, 850, &cfg);
    assert_eq!(
        tiles,
        vec![Tile { pos: (0, 0), sprite: 12, color: TileColor::Brown, z_index: 1 }]
    );
    let (_, tiles) = classify_cell(0, 0, 800, 990, 0, 0, 849, &cfg);
    assert_eq!(
        tiles,
        vec![Tile { pos: (0, 0), sprite: 13, color: TileColor::Brown, z_index: 1 }]
    );
}

#[test]
fn overlapping_bands_emit_independently() {
    // Bands are evaluated independently: with overlapping bands a single
    // cell can emit several feature tiles.
    let mut cfg = default_config();
    cfg.mountain = Band { low: 300, high: 500 };
    cfg.forest = Band { low: 300, high: 500 };
    let (_, tiles) = classify_cell(0, 0, 400, 950, 0, 0, 0, &cfg);
    assert_eq!(tiles.len(), 2);
    assert_eq!(tiles[0].sprite, 1);
    assert_eq!(tiles[1].sprite, 7);
}

#[test]
fn neighbor_pattern_l_shape() {
    // OccupiedSet = {(0,0),(0,1),(1,0)}: an L. At (0,0), top and right
    // are occupied, bottom and left are not: pattern (1,1,0,0), the
    // corner variant 3, with neighbor count 2.
    let mut occ = OccupiedSet::new(2, 2);
    occ.insert(0, 0);
    occ.insert(0, 1);
    occ.insert(1, 0);
    let (variant, count) = tilegen::autotile::get_tile((0, 0), &occ);
    assert_eq!(variant, 3);
    assert_eq!(count, 2);
}

#[test]
fn neighbor_patterns_map_to_corner_variants() {
    // A full 2x2 block: each corner shows a distinct corner variant.
    let mut occ = OccupiedSet::new(2, 2);
    occ.insert(0, 0);
    occ.insert(0, 1);
    occ.insert(1, 0);
    occ.insert(1, 1);
    assert_eq!(tilegen::autotile::get_tile((0, 0), &occ), (3, 2));
    assert_eq!(tilegen::autotile::get_tile((0, 1), &occ), (1, 2));
    assert_eq!(tilegen::autotile::get_tile((1, 0), &occ), (4, 2));
    assert_eq!(tilegen::autotile::get_tile((1, 1), &occ), (2, 2));
}

#[test]
fn unlisted_patterns_fall_back_to_default_fill() {
    // A plus shape: the center is fully surrounded, which is not one of
    // the four listed corner patterns, so it falls back to variant 0.
    let mut occ = OccupiedSet::new(3, 3);
    occ.insert(1, 1);
    occ.insert(0, 1);
    occ.insert(2, 1);
    occ.insert(1, 0);
    occ.insert(1, 2);
    assert_eq!(tilegen::autotile::get_tile((1, 1), &occ), (0, 4));
    // A single neighbor is also unlisted; count reports it.
    assert_eq!(tilegen::autotile::get_tile((0, 1), &occ), (0, 1));
}

#[test]
fn out_of_grid_neighbors_are_unoccupied() {
    let mut occ = OccupiedSet::new(1, 1);
    occ.insert(0, 0);
    assert_eq!(tilegen::autotile::get_tile((0, 0), &occ), (0, 0));
}
