//! When water passes between two neighbouring cells.

use crate::tile::{Tile, TileContents};
use crate::wetness::Wetness;
use vstd::prelude::*;

verus! {

/// The height at which water stands in a cell: the cell's own height, or
/// for an aqueduct the height of its channel.
pub open spec fn water_level(tile: Tile) -> int {
    match tile.contents {
        TileContents::Aquaduct(h) => tile.z + h,
        _ => tile.z as int,
    }
}

/// How far above its own height a cell still takes water from a neighbour.
/// A canal takes water only on its own level. A lock reaches up to four
/// levels higher, but meets an aqueduct only on its own level.
pub open spec fn flow_reach(contents: TileContents, neighbour: TileContents) -> int {
    match contents {
        TileContents::Canal => 1,
        TileContents::Lock => if neighbour is Aquaduct {
            1
        } else {
            5
        },
        _ => 0,
    }
}

/// Whether `tile` takes water from its neighbour: the neighbour is not dry,
/// its water stands no lower than a canal or lock and within that cell's
/// reach, or exactly at the level of an aqueduct's channel. Nothing else
/// takes water.
pub open spec fn feeds(tile: Tile, neighbour: Tile) -> bool {
    neighbour.wetness != Wetness::Dry && match tile.contents {
        TileContents::Canal | TileContents::Lock => tile.z <= water_level(neighbour)
            && water_level(neighbour) - tile.z < flow_reach(tile.contents, neighbour.contents),
        TileContents::Aquaduct(_) => water_level(tile) == water_level(neighbour),
        _ => false,
    }
}

/// How far from its own height a water source still shares its identity
/// with a neighbour: fifteen levels along a river, one otherwise.
pub open spec fn source_reach(neighbour: TileContents) -> int {
    if neighbour == TileContents::River {
        15
    } else {
        1
    }
}

/// Whether `tile` takes the identity of its source from its neighbour. A
/// dry cell takes it from nobody. A water source takes it from any
/// neighbour that is not dry and whose water stands within `source_reach`
/// of the source's height, above or below. Any other cell takes it from
/// the neighbours it takes water from.
pub open spec fn shares_source(tile: Tile, neighbour: Tile) -> bool {
    if tile.wetness == Wetness::Dry {
        false
    } else if tile.wetness == Wetness::WaterSource {
        let gap = water_level(neighbour) - tile.z;
        neighbour.wetness != Wetness::Dry && -source_reach(neighbour.contents) < gap
            < source_reach(neighbour.contents)
    } else {
        feeds(tile, neighbour)
    }
}

/// The height at which water stands in a cell.
pub fn water_level_of(tile: &Tile) -> (level: u128)
    ensures
        level == water_level(*tile),
{
    match tile.contents {
        TileContents::Aquaduct(h) => (tile.z as u128) + (h as u128),
        _ => tile.z as u128,
    }
}

/// Whether `tile` takes water from its neighbour.
pub fn takes_water_from(tile: &Tile, neighbour: &Tile) -> (r: bool)
    ensures
        r == feeds(*tile, *neighbour),
{
    if neighbour.wetness == Wetness::Dry {
        return false;
    }
    let z: u128 = tile.z as u128;
    let nz: u128 = water_level_of(neighbour);
    match tile.contents {
        TileContents::Canal => z <= nz && nz - z < 1,
        TileContents::Lock => {
            let diff: u128 = match neighbour.contents {
                TileContents::Aquaduct(_) => 1,
                _ => 5,
            };
            z <= nz && nz - z < diff
        },
        TileContents::Aquaduct(_) => water_level_of(tile) == nz,
        _ => false,
    }
}

/// Whether `tile` takes the identity of its source from its neighbour.
pub fn takes_source_from(tile: &Tile, neighbour: &Tile) -> (r: bool)
    ensures
        r == shares_source(*tile, *neighbour),
{
    if tile.wetness == Wetness::Dry {
        false
    } else if tile.wetness == Wetness::WaterSource {
        if neighbour.wetness == Wetness::Dry {
            return false;
        }
        let z: u128 = tile.z as u128;
        let nz: u128 = water_level_of(neighbour);
        let diff: u128 = match neighbour.contents {
            TileContents::River => 15,
            _ => 1,
        };
        if z <= nz {
            nz - z < diff
        } else {
            z - nz < diff
        }
    } else {
        takes_water_from(tile, neighbour)
    }
}

} // verus!
