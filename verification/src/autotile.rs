use vstd::prelude::*;

use crate::occupied::OccupiedSet;

verus! {

/// 1 when the neighbor is occupied, else 0.
pub open spec fn b2i(b: bool) -> int {
    if b {
        1
    } else {
        0
    }
}

/// Sprite variant for a 4-neighbor pattern (top, right, bottom, left).
/// Only four corner patterns are distinguished; every other pattern falls
/// back to the default fill variant 0. The sparseness of this table is
/// deliberate, observable behavior.
pub open spec fn spec_variant(top: bool, right: bool, bottom: bool, left: bool) -> usize {
    if !top && right && bottom && !left {
        1
    } else if !top && !right && bottom && left {
        2
    } else if top && right && !bottom && !left {
        3
    } else if top && !right && !bottom && left {
        4
    } else {
        0
    }
}

/// How many of the four cardinal neighbors of `(x, y)` are occupied.
pub open spec fn spec_neighbor_count(occ: OccupiedSet, x: int, y: int) -> int {
    b2i(occ.spec_contains(x, y + 1)) + b2i(occ.spec_contains(x + 1, y)) + b2i(
        occ.spec_contains(x, y - 1),
    ) + b2i(occ.spec_contains(x - 1, y))
}

/// Maps a 4-neighbor pattern to its sprite variant.
pub fn variant_for(top: bool, right: bool, bottom: bool, left: bool) -> (v: usize)
    ensures
        v == spec_variant(top, right, bottom, left),
{
    if !top && right && bottom && !left {
        1
    } else if !top && !right && bottom && left {
        2
    } else if top && right && !bottom && !left {
        3
    } else if top && !right && !bottom && left {
        4
    } else {
        0
    }
}

/// The autotile lookup for one occupied-set cell: the sprite variant for
/// the cell's 4-neighbor pattern (top = +y, right = +x, bottom = -y,
/// left = -x), and how many of those neighbors are occupied.
pub fn get_tile(pos: (i32, i32), occupied: &OccupiedSet) -> (r: (usize, i32))
    requires
        occupied.wf(),
    ensures
        r.0 == spec_variant(
            occupied.spec_contains(pos.0 as int, pos.1 as int + 1),
            occupied.spec_contains(pos.0 as int + 1, pos.1 as int),
            occupied.spec_contains(pos.0 as int, pos.1 as int - 1),
            occupied.spec_contains(pos.0 as int - 1, pos.1 as int),
        ),
        r.1 == spec_neighbor_count(*occupied, pos.0 as int, pos.1 as int),
{
    let (x, y) = pos;
    let top = occupied.contains(x as i64, y as i64 + 1);
    let right = occupied.contains(x as i64 + 1, y as i64);
    let bottom = occupied.contains(x as i64, y as i64 - 1);
    let left = occupied.contains(x as i64 - 1, y as i64);
    let count: i32 = (if top {
        1
    } else {
        0
    }) + (if right {
        1
    } else {
        0
    }) + (if bottom {
        1
    } else {
        0
    }) + (if left {
        1
    } else {
        0
    });
    (variant_for(top, right, bottom, left), count)
}

} // verus!
