use vstd::prelude::*;

use crate::autotile::{b2i, get_tile, spec_variant};
use crate::classify::{
    classify_cell, spec_cell_features, BONES_VARIANTS, CHOICE_UNIT, TREE_VARIANTS,
};
use crate::config::{ConfigError, ThresholdConfig};
use crate::occupied::{lemma_row_major_index_bound, OccupiedSet, MAX_EXTENT};
use crate::rng::{
    draw_below, draw_of, spec_stream_seed, stream_seed, SLOT_BONES, SLOT_CHOICE, SLOT_HOUSE,
    SLOT_TREE,
};
use crate::tile::{Tile, TileColor, LAYER_FEATURE, LAYER_GROUND};

verus! {

/// The per-cell choice value: uniform in `[0, CHOICE_UNIT)`, drawn fresh
/// per cell and independent of the noise value.
pub open spec fn spec_choice(seed: u64, cell: int) -> usize {
    draw_of(spec_stream_seed(seed, cell, SLOT_CHOICE as int), CHOICE_UNIT as int)
}

/// The per-cell large-tree variant pick.
pub open spec fn spec_tree_pick(seed: u64, cell: int) -> usize {
    draw_of(spec_stream_seed(seed, cell, SLOT_TREE as int), TREE_VARIANTS as int)
}

/// The per-cell bones variant pick.
pub open spec fn spec_bone_pick(seed: u64, cell: int) -> usize {
    draw_of(spec_stream_seed(seed, cell, SLOT_BONES as int), BONES_VARIANTS as int)
}

/// The per-cell house variant pick, uniform in `[0, CHOICE_UNIT)`.
pub open spec fn spec_house_pick(seed: u64, cell: int) -> usize {
    draw_of(spec_stream_seed(seed, cell, SLOT_HOUSE as int), CHOICE_UNIT as int)
}

/// Feature tiles of the cell at `(x, y)`, whose noise value sits at
/// row-major index `x * rows + y`.
pub open spec fn spec_cell_tiles(
    noise: Seq<i32>,
    seed: u64,
    cfg: ThresholdConfig,
    rows: int,
    x: int,
    y: int,
) -> Seq<Tile> {
    let cell = x * rows + y;
    spec_cell_features(
        x as i32,
        y as i32,
        noise[cell],
        spec_choice(seed, cell),
        spec_tree_pick(seed, cell),
        spec_bone_pick(seed, cell),
        spec_house_pick(seed, cell),
        cfg,
    )
}

/// Feature tiles of cells `(x, 0)` through `(x, y - 1)`, in order.
pub open spec fn spec_col_features(
    noise: Seq<i32>,
    seed: u64,
    cfg: ThresholdConfig,
    rows: int,
    x: int,
    y: int,
) -> Seq<Tile>
    decreases y,
{
    if y <= 0 {
        Seq::empty()
    } else {
        spec_col_features(noise, seed, cfg, rows, x, y - 1) + spec_cell_tiles(
            noise,
            seed,
            cfg,
            rows,
            x,
            y - 1,
        )
    }
}

/// Feature tiles of all cells in columns `0` through `x - 1`, in order.
pub open spec fn spec_features(
    noise: Seq<i32>,
    seed: u64,
    cfg: ThresholdConfig,
    rows: int,
    x: int,
) -> Seq<Tile>
    decreases x,
{
    if x <= 0 {
        Seq::empty()
    } else {
        spec_features(noise, seed, cfg, rows, x - 1) + spec_col_features(
            noise,
            seed,
            cfg,
            rows,
            x - 1,
            rows,
        )
    }
}

/// Whether `(x, y)` is solid ground: inside the grid, with its noise
/// value strictly above the ground threshold `thr`.
pub open spec fn spec_occupied_at(
    noise: Seq<i32>,
    cols: int,
    rows: int,
    thr: i32,
    x: int,
    y: int,
) -> bool {
    &&& 0 <= x < cols
    &&& 0 <= y < rows
    &&& noise[x * rows + y] > thr
}

/// How many of the four cardinal neighbors of `(x, y)` are solid ground.
pub open spec fn spec_ground_nei_count(
    noise: Seq<i32>,
    cols: int,
    rows: int,
    thr: i32,
    x: int,
    y: int,
) -> int {
    b2i(spec_occupied_at(noise, cols, rows, thr, x, y + 1)) + b2i(
        spec_occupied_at(noise, cols, rows, thr, x + 1, y),
    ) + b2i(spec_occupied_at(noise, cols, rows, thr, x, y - 1)) + b2i(
        spec_occupied_at(noise, cols, rows, thr, x - 1, y),
    )
}

/// The autotile pass at one cell: a ground tile with the variant of the
/// cell's 4-neighbor pattern, but only for occupied cells with more than
/// one occupied neighbor — isolated and near-isolated ground cells are
/// deliberately not drawn.
pub open spec fn spec_ground_cell(
    noise: Seq<i32>,
    cols: int,
    rows: int,
    thr: i32,
    x: int,
    y: int,
) -> Seq<Tile> {
    if spec_occupied_at(noise, cols, rows, thr, x, y) && spec_ground_nei_count(
        noise,
        cols,
        rows,
        thr,
        x,
        y,
    ) > 1 {
        seq![
            Tile {
                pos: (x as i32, y as i32),
                sprite: spec_variant(
                    spec_occupied_at(noise, cols, rows, thr, x, y + 1),
                    spec_occupied_at(noise, cols, rows, thr, x + 1, y),
                    spec_occupied_at(noise, cols, rows, thr, x, y - 1),
                    spec_occupied_at(noise, cols, rows, thr, x - 1, y),
                ),
                color: TileColor::Beige,
                z_index: LAYER_GROUND,
            },
        ]
    } else {
        Seq::empty()
    }
}

/// Ground tiles of cells `(x, 0)` through `(x, y - 1)`, in order.
pub open spec fn spec_ground_col(
    noise: Seq<i32>,
    cols: int,
    rows: int,
    thr: i32,
    x: int,
    y: int,
) -> Seq<Tile>
    decreases y,
{
    if y <= 0 {
        Seq::empty()
    } else {
        spec_ground_col(noise, cols, rows, thr, x, y - 1) + spec_ground_cell(
            noise,
            cols,
            rows,
            thr,
            x,
            y - 1,
        )
    }
}

/// Ground tiles of all cells in columns `0` through `x - 1`, in order.
pub open spec fn spec_ground(noise: Seq<i32>, cols: int, rows: int, thr: i32, x: int) -> Seq<Tile>
    decreases x,
{
    if x <= 0 {
        Seq::empty()
    } else {
        spec_ground(noise, cols, rows, thr, x - 1) + spec_ground_col(
            noise,
            cols,
            rows,
            thr,
            x - 1,
            rows,
        )
    }
}

/// Everything `generate` emits for a well-formed configuration: the
/// pass-1 feature tiles, then the pass-2 ground tiles.
pub open spec fn spec_generate(
    noise: Seq<i32>,
    seed: u64,
    cfg: ThresholdConfig,
    cols: int,
    rows: int,
) -> Seq<Tile> {
    spec_features(noise, seed, cfg, rows, cols) + spec_ground(
        noise,
        cols,
        rows,
        cfg.ground_threshold,
        cols,
    )
}

/// What the autotile pass promises of a ground tile `t`: its position is
/// a member of the occupied set, with more than one occupied cardinal
/// neighbor there.
pub open spec fn spec_ground_ok(noise: Seq<i32>, cols: int, rows: int, thr: i32, t: Tile) -> bool {
    &&& spec_occupied_at(noise, cols, rows, thr, t.pos.0 as int, t.pos.1 as int)
    &&& spec_ground_nei_count(noise, cols, rows, thr, t.pos.0 as int, t.pos.1 as int) > 1
}

/// Determinism law: the placement sequence is a function of the grid
/// size, the noise samples, the seed and the configuration alone, so two
/// runs over the same inputs yield identical sequences.
pub proof fn lemma_generate_deterministic(
    r1: Seq<Tile>,
    r2: Seq<Tile>,
    noise: Seq<i32>,
    seed: u64,
    cfg: ThresholdConfig,
    cols: int,
    rows: int,
)
    requires
        r1 == spec_generate(noise, seed, cfg, cols, rows),
        r2 == spec_generate(noise, seed, cfg, cols, rows),
    ensures
        r1 == r2,
{
}

/// Every feature tile of one cell is drawn on the feature layer.
proof fn lemma_cell_tiles_layer(
    noise: Seq<i32>,
    seed: u64,
    cfg: ThresholdConfig,
    rows: int,
    x: int,
    y: int,
)
    ensures
        forall|j: int|
            0 <= j < spec_cell_tiles(noise, seed, cfg, rows, x, y).len() ==> spec_cell_tiles(
                noise,
                seed,
                cfg,
                rows,
                x,
                y,
            )[j].z_index == LAYER_FEATURE,
{
}

/// Every feature tile of one column is drawn on the feature layer.
proof fn lemma_col_features_layer(
    noise: Seq<i32>,
    seed: u64,
    cfg: ThresholdConfig,
    rows: int,
    x: int,
    y: int,
)
    ensures
        forall|j: int|
            0 <= j < spec_col_features(noise, seed, cfg, rows, x, y).len() ==> spec_col_features(
                noise,
                seed,
                cfg,
                rows,
                x,
                y,
            )[j].z_index == LAYER_FEATURE,
    decreases y,
{
    if y > 0 {
        lemma_col_features_layer(noise, seed, cfg, rows, x, y - 1);
        lemma_cell_tiles_layer(noise, seed, cfg, rows, x, y - 1);
    }
}

/// Every pass-1 feature tile is drawn on the feature layer, above the
/// ground tiles.
pub proof fn lemma_features_layer(
    noise: Seq<i32>,
    seed: u64,
    cfg: ThresholdConfig,
    rows: int,
    x: int,
)
    ensures
        forall|j: int|
            0 <= j < spec_features(noise, seed, cfg, rows, x).len() ==> spec_features(
                noise,
                seed,
                cfg,
                rows,
                x,
            )[j].z_index == LAYER_FEATURE,
    decreases x,
{
    if x > 0 {
        lemma_features_layer(noise, seed, cfg, rows, x - 1);
        lemma_col_features_layer(noise, seed, cfg, rows, x - 1, rows);
    }
}

/// Every ground tile of one column sits on an occupied cell with more
/// than one occupied neighbor.
proof fn lemma_ground_col_occupied(noise: Seq<i32>, cols: int, rows: int, thr: i32, x: int, y: int)
    requires
        cols <= MAX_EXTENT,
        rows <= MAX_EXTENT,
    ensures
        forall|j: int|
            0 <= j < spec_ground_col(noise, cols, rows, thr, x, y).len() ==> spec_ground_ok(
                noise,
                cols,
                rows,
                thr,
                spec_ground_col(noise, cols, rows, thr, x, y)[j],
            ),
    decreases y,
{
    if y > 0 {
        lemma_ground_col_occupied(noise, cols, rows, thr, x, y - 1);
        let prev = spec_ground_col(noise, cols, rows, thr, x, y - 1);
        let last = spec_ground_cell(noise, cols, rows, thr, x, y - 1);
        assert forall|j: int|
            0 <= j < spec_ground_col(noise, cols, rows, thr, x, y).len() implies spec_ground_ok(
            noise,
            cols,
            rows,
            thr,
            spec_ground_col(noise, cols, rows, thr, x, y)[j],
        ) by {
            if j < prev.len() {
                assert(spec_ground_col(noise, cols, rows, thr, x, y)[j] == prev[j]);
            } else {
                let t = last[j - prev.len()];
                assert(spec_ground_col(noise, cols, rows, thr, x, y)[j] == t);
                assert(t.pos.0 as int == x && t.pos.1 as int == y - 1);
            }
        }
    }
}

/// Soundness law of the autotile pass: every ground placement's position
/// is a member of the occupied set — its noise value is strictly above
/// the ground threshold — and has more than one occupied cardinal
/// neighbor.
pub proof fn lemma_ground_occupied(noise: Seq<i32>, cols: int, rows: int, thr: i32, x: int)
    requires
        cols <= MAX_EXTENT,
        rows <= MAX_EXTENT,
    ensures
        forall|j: int|
            0 <= j < spec_ground(noise, cols, rows, thr, x).len() ==> spec_ground_ok(
                noise,
                cols,
                rows,
                thr,
                spec_ground(noise, cols, rows, thr, x)[j],
            ),
    decreases x,
{
    if x > 0 {
        lemma_ground_occupied(noise, cols, rows, thr, x - 1);
        lemma_ground_col_occupied(noise, cols, rows, thr, x - 1, rows);
        let prev = spec_ground(noise, cols, rows, thr, x - 1);
        let col = spec_ground_col(noise, cols, rows, thr, x - 1, rows);
        assert forall|j: int|
            0 <= j < spec_ground(noise, cols, rows, thr, x).len() implies spec_ground_ok(
            noise,
            cols,
            rows,
            thr,
            spec_ground(noise, cols, rows, thr, x)[j],
        ) by {
            if j < prev.len() {
                assert(spec_ground(noise, cols, rows, thr, x)[j] == prev[j]);
            } else {
                assert(spec_ground(noise, cols, rows, thr, x)[j] == col[j - prev.len()]);
            }
        }
    }
}

/// Occupied-membership law over the whole output: every placement on
/// the ground layer — the autotile-derived tiles — sits at a position
/// that is a member of the occupied set and has more than one occupied
/// cardinal neighbor there.
pub proof fn lemma_generate_ground_occupied(
    noise: Seq<i32>,
    seed: u64,
    cfg: ThresholdConfig,
    cols: int,
    rows: int,
)
    requires
        cols <= MAX_EXTENT,
        rows <= MAX_EXTENT,
    ensures
        forall|j: int|
            0 <= j < spec_generate(noise, seed, cfg, cols, rows).len() ==> (spec_generate(
                noise,
                seed,
                cfg,
                cols,
                rows,
            )[j].z_index == LAYER_GROUND ==> spec_ground_ok(
                noise,
                cols,
                rows,
                cfg.ground_threshold,
                spec_generate(noise, seed, cfg, cols, rows)[j],
            )),
{
    let feats = spec_features(noise, seed, cfg, rows, cols);
    let ground = spec_ground(noise, cols, rows, cfg.ground_threshold, cols);
    lemma_features_layer(noise, seed, cfg, rows, cols);
    lemma_ground_occupied(noise, cols, rows, cfg.ground_threshold, cols);
    assert forall|j: int|
        0 <= j < spec_generate(noise, seed, cfg, cols, rows).len() && spec_generate(
            noise,
            seed,
            cfg,
            cols,
            rows,
        )[j].z_index == LAYER_GROUND implies spec_ground_ok(
        noise,
        cols,
        rows,
        cfg.ground_threshold,
        spec_generate(noise, seed, cfg, cols, rows)[j],
    ) by {
        let t = spec_generate(noise, seed, cfg, cols, rows)[j];
        if j < feats.len() {
            assert(t == feats[j]);
        } else {
            assert(t == ground[j - feats.len()]);
        }
    }
}

/// Sparsity law: an isolated or near-isolated ground cell — one with at
/// most one occupied cardinal neighbor — receives no ground placement at
/// all in the generated sequence.
pub proof fn lemma_sparse_cell_unplaced(
    noise: Seq<i32>,
    seed: u64,
    cfg: ThresholdConfig,
    cols: int,
    rows: int,
    x: int,
    y: int,
)
    requires
        cols <= MAX_EXTENT,
        rows <= MAX_EXTENT,
        0 <= x < cols,
        0 <= y < rows,
        spec_ground_nei_count(noise, cols, rows, cfg.ground_threshold, x, y) <= 1,
    ensures
        forall|j: int|
            0 <= j < spec_generate(noise, seed, cfg, cols, rows).len() ==> (spec_generate(
                noise,
                seed,
                cfg,
                cols,
                rows,
            )[j].z_index == LAYER_GROUND ==> spec_generate(noise, seed, cfg, cols, rows)[j].pos != (
            (x as i32, y as i32))),
{
    let feats = spec_features(noise, seed, cfg, rows, cols);
    let ground = spec_ground(noise, cols, rows, cfg.ground_threshold, cols);
    lemma_features_layer(noise, seed, cfg, rows, cols);
    lemma_ground_occupied(noise, cols, rows, cfg.ground_threshold, cols);
    assert forall|j: int|
        0 <= j < spec_generate(noise, seed, cfg, cols, rows).len() && spec_generate(
            noise,
            seed,
            cfg,
            cols,
            rows,
        )[j].z_index == LAYER_GROUND implies spec_generate(noise, seed, cfg, cols, rows)[j].pos != (
    (x as i32, y as i32)) by {
        let t = spec_generate(noise, seed, cfg, cols, rows)[j];
        if j < feats.len() {
            assert(t == feats[j]);
        } else {
            assert(t == ground[j - feats.len()]);
            assert(spec_ground_ok(noise, cols, rows, cfg.ground_threshold, t));
            if t.pos == ((x as i32, y as i32)) {
                assert(t.pos.0 as int == x && t.pos.1 as int == y);
            }
        }
    }
}

/// Feature tiles over an empty column range are none.
proof fn lemma_features_empty_rows(noise: Seq<i32>, seed: u64, cfg: ThresholdConfig, x: int)
    ensures
        spec_features(noise, seed, cfg, 0, x).len() == 0,
    decreases x,
{
    if x > 0 {
        lemma_features_empty_rows(noise, seed, cfg, x - 1);
    }
}

/// Ground tiles over an empty column range are none.
proof fn lemma_ground_empty_rows(noise: Seq<i32>, cols: int, thr: i32, x: int)
    ensures
        spec_ground(noise, cols, 0, thr, x).len() == 0,
    decreases x,
{
    if x > 0 {
        lemma_ground_empty_rows(noise, cols, thr, x - 1);
    }
}

/// Zero-size law: a grid with no columns or no rows generates an empty
/// placement sequence.
pub proof fn lemma_zero_size_empty(
    noise: Seq<i32>,
    seed: u64,
    cfg: ThresholdConfig,
    cols: int,
    rows: int,
)
    requires
        cols == 0 || rows == 0,
    ensures
        spec_generate(noise, seed, cfg, cols, rows).len() == 0,
{
    if cols != 0 {
        lemma_features_empty_rows(noise, seed, cfg, cols);
        lemma_ground_empty_rows(noise, cols, cfg.ground_threshold, cols);
    }
}

/// The draw-stream seeds of every cell in the grid fit in a `u64`.
proof fn lemma_stream_seed_bound(x: int, y: int, cols: int, rows: int)
    by (nonlinear_arith)
    requires
        0 <= x < cols,
        0 <= y < rows,
        cols <= MAX_EXTENT,
        rows <= MAX_EXTENT,
    ensures
        0 <= x * rows + y,
        4 * (x * rows + y) + 3 <= u64::MAX,
{
}

/// Generates the world: samples of the noise field over the grid
/// `[0, cols) x [0, rows)` come in row-major (`x * rows + y`) as
/// thousandths of a noise unit, `seed` drives the per-cell random choice
/// streams, and `cfg` gives the classification thresholds. Rejects an
/// ill-formed configuration up front, naming its first invalid field;
/// otherwise returns exactly the placement list of the two-pass
/// synthesis, deterministic in `(cols, rows, noise, seed, cfg)`.
pub fn generate(cols: usize, rows: usize, noise: &Vec<i32>, seed: u64, cfg: &ThresholdConfig) -> (r:
    Result<Vec<Tile>, ConfigError>)
    requires
        cols <= MAX_EXTENT,
        rows <= MAX_EXTENT,
        noise@.len() == cols * rows,
    ensures
        r is Ok <==> cfg.wf(),
        cfg.wf() ==> (r matches Ok(tiles) && tiles@ == spec_generate(
            noise@,
            seed,
            *cfg,
            cols as int,
            rows as int,
        )),
        !cfg.wf() ==> r == Err::<Vec<Tile>, ConfigError>(cfg.spec_first_error()),
{
    match cfg.validate() {
        Err(e) => {
            return Err(e);
        },
        Ok(()) => {},
    }
    // The field's length bounds cols * rows within the usize range,
    // which the occupied set's allocation needs.
    let total = noise.len();
    assert(total == cols * rows);
    let mut tiles: Vec<Tile> = Vec::new();
    let mut occ = OccupiedSet::new(cols, rows);

    let mut x: usize = 0;
    while x < cols
        invariant
            x <= cols,
            cols <= MAX_EXTENT,
            rows <= MAX_EXTENT,
            noise@.len() == cols * rows,
            cols * rows <= usize::MAX,
            occ.wf(),
            occ.spec_cols() == cols as int,
            occ.spec_rows() == rows as int,
            tiles@ == spec_features(noise@, seed, *cfg, rows as int, x as int),
            forall|i: int, j: int|
                occ.spec_contains(i, j) == (spec_occupied_at(
                    noise@,
                    cols as int,
                    rows as int,
                    cfg.ground_threshold,
                    i,
                    j,
                ) && i < x),
        decreases cols - x,
    {
        let mut y: usize = 0;
        while y < rows
            invariant
                x < cols,
                y <= rows,
                cols <= MAX_EXTENT,
                rows <= MAX_EXTENT,
                noise@.len() == cols * rows,
                cols * rows <= usize::MAX,
                occ.wf(),
                occ.spec_cols() == cols as int,
                occ.spec_rows() == rows as int,
                tiles@ == spec_features(noise@, seed, *cfg, rows as int, x as int)
                    + spec_col_features(noise@, seed, *cfg, rows as int, x as int, y as int),
                forall|i: int, j: int|
                    occ.spec_contains(i, j) == (spec_occupied_at(
                        noise@,
                        cols as int,
                        rows as int,
                        cfg.ground_threshold,
                        i,
                        j,
                    ) && (i < x || (i == x && j < y))),
            decreases rows - y,
        {
            proof {
                lemma_stream_seed_bound(x as int, y as int, cols as int, rows as int);
                lemma_row_major_index_bound(x as int, y as int, cols as int, rows as int);
            }
            let cell = x * rows + y;
            let n = noise[cell];
            let choice = draw_below(stream_seed(seed, cell as u64, SLOT_CHOICE), CHOICE_UNIT);
            let tree_pick = draw_below(stream_seed(seed, cell as u64, SLOT_TREE), TREE_VARIANTS);
            let bone_pick = draw_below(stream_seed(seed, cell as u64, SLOT_BONES), BONES_VARIANTS);
            let house_pick = draw_below(stream_seed(seed, cell as u64, SLOT_HOUSE), CHOICE_UNIT);
            let (ground, mut feats) = classify_cell(
                x as i32,
                y as i32,
                n,
                choice,
                tree_pick,
                bone_pick,
                house_pick,
                cfg,
            );
            if ground {
                occ.insert(x, y);
            }
            tiles.append(&mut feats);
            proof {
                assert(tiles@ =~= spec_features(noise@, seed, *cfg, rows as int, x as int)
                    + spec_col_features(noise@, seed, *cfg, rows as int, x as int, y as int + 1));
            }
            y = y + 1;
        }
        x = x + 1;
    }

    proof {
        assert forall|i: int, j: int|
            occ.spec_contains(i, j) == spec_occupied_at(
                noise@,
                cols as int,
                rows as int,
                cfg.ground_threshold,
                i,
                j,
            ) by {}
    }

    let mut x: usize = 0;
    while x < cols
        invariant
            x <= cols,
            cols <= MAX_EXTENT,
            rows <= MAX_EXTENT,
            occ.wf(),
            occ.spec_cols() == cols as int,
            occ.spec_rows() == rows as int,
            forall|i: int, j: int|
                occ.spec_contains(i, j) == spec_occupied_at(
                    noise@,
                    cols as int,
                    rows as int,
                    cfg.ground_threshold,
                    i,
                    j,
                ),
            tiles@ == spec_features(noise@, seed, *cfg, rows as int, cols as int) + spec_ground(
                noise@,
                cols as int,
                rows as int,
                cfg.ground_threshold,
                x as int,
            ),
        decreases cols - x,
    {
        let mut y: usize = 0;
        while y < rows
            invariant
                x < cols,
                y <= rows,
                cols <= MAX_EXTENT,
                rows <= MAX_EXTENT,
                occ.wf(),
                occ.spec_cols() == cols as int,
                occ.spec_rows() == rows as int,
                forall|i: int, j: int|
                    occ.spec_contains(i, j) == spec_occupied_at(
                        noise@,
                        cols as int,
                        rows as int,
                        cfg.ground_threshold,
                        i,
                        j,
                    ),
                tiles@ == spec_features(noise@, seed, *cfg, rows as int, cols as int)
                    + spec_ground(noise@, cols as int, rows as int, cfg.ground_threshold, x as int)
                    + spec_ground_col(
                    noise@,
                    cols as int,
                    rows as int,
                    cfg.ground_threshold,
                    x as int,
                    y as int,
                ),
            decreases rows - y,
        {
            if occ.contains(x as i64, y as i64) {
                let (sprite, cnt) = get_tile((x as i32, y as i32), &occ);
                if cnt > 1 {
                    tiles.push(Tile::new((x as i32, y as i32), sprite, LAYER_GROUND, TileColor::Beige));
                }
            }
            proof {
                assert(tiles@ =~= spec_features(noise@, seed, *cfg, rows as int, cols as int)
                    + spec_ground(noise@, cols as int, rows as int, cfg.ground_threshold, x as int)
                    + spec_ground_col(
                    noise@,
                    cols as int,
                    rows as int,
                    cfg.ground_threshold,
                    x as int,
                    y as int + 1,
                ));
            }
            y = y + 1;
        }
        proof {
            assert(tiles@ =~= spec_features(noise@, seed, *cfg, rows as int, cols as int)
                + spec_ground(
                noise@,
                cols as int,
                rows as int,
                cfg.ground_threshold,
                x as int + 1,
            ));
        }
        x = x + 1;
    }

    proof {
        assert(tiles@ =~= spec_generate(noise@, seed, *cfg, cols as int, rows as int));
    }
    Ok(tiles)
}

} // verus!

