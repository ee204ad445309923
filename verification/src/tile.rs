//! The per-cell record of the grid and the enums that describe it.

use crate::wetness::Wetness;
use vstd::prelude::*;

verus! {

/// Terrain of a cell. Sea is always a permanent water source.
#[derive(Debug, Clone, Copy, PartialEq, Eq, Hash, Structural)]
pub enum TileType {
    Land,
    Farm,
    City,
    Sea,
}

impl Default for TileType {
    fn default() -> (r: Self)
        ensures
            r == TileType::Land,
    {
        TileType::Land
    }
}

/// What has been built on a cell.
///
/// An aqueduct carries the height of its water channel above the cell's own
/// height. A river is a permanent water source and can be neither dug nor
/// demolished.
#[derive(Debug, Clone, Copy, PartialEq, Eq, Hash, Structural)]
pub enum TileContents {
    Empty,
    Road,
    Canal,
    Lock,
    Aquaduct(usize),
    River,
}

impl Default for TileContents {
    fn default() -> (r: Self)
        ensures
            r == TileContents::Empty,
    {
        TileContents::Empty
    }
}

/// How the price of construction on a cell is altered.
#[derive(Debug, Clone, Copy, PartialEq, Eq, Hash, Structural)]
pub enum TileCostModifier {
    Normal,
    Multiplier,
    Blocked,
}

impl Default for TileCostModifier {
    fn default() -> (r: Self)
        ensures
            r == TileCostModifier::Normal,
    {
        TileCostModifier::Normal
    }
}

/// The neighbours of a cell in the order above, left, right, below, each by
/// its index in the board's arena; `None` where the board has no cell there.
#[derive(Debug, Clone, Copy, PartialEq, Eq)]
pub struct TileNeighbours(pub [Option<usize>; 4]);

/// One cell of the grid.
#[derive(Debug, Clone, Copy, PartialEq, Eq, Structural)]
pub struct Tile {
    pub x: usize,
    pub y: usize,
    pub z: usize,
    pub tile_type: TileType,
    pub contents: TileContents,
    pub is_goal: bool,
    pub wetness: Wetness,
    pub cost_modifier: TileCostModifier,
}

impl Default for Tile {
    fn default() -> (r: Self)
        ensures
            r == (Tile {
                x: 0,
                y: 0,
                z: 0,
                tile_type: TileType::Land,
                contents: TileContents::Empty,
                is_goal: false,
                wetness: Wetness::Dry,
                cost_modifier: TileCostModifier::Normal,
            }),
    {
        Tile {
            x: 0,
            y: 0,
            z: 0,
            tile_type: TileType::Land,
            contents: TileContents::Empty,
            is_goal: false,
            wetness: Wetness::Dry,
            cost_modifier: TileCostModifier::Normal,
        }
    }
}

/// What digging costs on a terrain before anything else is taken into
/// account. The cost rises from land over farmland and city to the sea:
/// three, four, six and eight.
pub open spec fn terrain_cost(tile_type: TileType) -> int {
    match tile_type {
        TileType::Land => 3,
        TileType::Farm => 4,
        TileType::City => 6,
        TileType::Sea => 8,
    }
}

/// A cost as the modifier leaves it: unchanged, doubled, or forbidden.
pub open spec fn modified_cost(modifier: TileCostModifier, cost: int) -> Option<int> {
    match modifier {
        TileCostModifier::Normal => Some(cost),
        TileCostModifier::Multiplier => Some(2 * cost),
        TileCostModifier::Blocked => None,
    }
}

/// The price of digging a canal: the terrain's cost, one more through a
/// road, then the modifier; none through a river.
pub open spec fn dig_cost_of(
    tile_type: TileType,
    contents: TileContents,
    modifier: TileCostModifier,
) -> Option<int> {
    if contents == TileContents::River {
        None
    } else {
        let road: int = if contents == TileContents::Road {
            1
        } else {
            0
        };
        modified_cost(modifier, terrain_cost(tile_type) + road)
    }
}

/// The price of a lock: one more than digging.
pub open spec fn lock_cost_of(
    tile_type: TileType,
    contents: TileContents,
    modifier: TileCostModifier,
) -> Option<int> {
    match dig_cost_of(tile_type, contents, modifier) {
        Some(c) => Some(c + 1),
        None => None,
    }
}

/// The price of an aqueduct: two more than digging.
pub open spec fn aquaduct_cost_of(
    tile_type: TileType,
    contents: TileContents,
    modifier: TileCostModifier,
) -> Option<int> {
    match dig_cost_of(tile_type, contents, modifier) {
        Some(c) => Some(c + 2),
        None => None,
    }
}

/// The price of clearing what stands on a cell; none where nothing stands
/// or a river runs.
pub open spec fn demolish_cost_of(contents: TileContents) -> Option<int> {
    match contents {
        TileContents::Empty => None,
        TileContents::Road => Some(1),
        TileContents::Canal => Some(3),
        TileContents::Lock => Some(4),
        TileContents::Aquaduct(h) => Some(5 * h),
        TileContents::River => None,
    }
}

/// Whether an executable cost is the given mathematical one.
pub open spec fn same_cost(got: Option<usize>, cost: Option<int>) -> bool {
    match got {
        Some(c) => cost == Some(c as int),
        None => cost is None,
    }
}

impl Tile {
    pub open spec fn dig_cost(self) -> Option<int> {
        dig_cost_of(self.tile_type, self.contents, self.cost_modifier)
    }

    pub open spec fn lock_cost(self) -> Option<int> {
        lock_cost_of(self.tile_type, self.contents, self.cost_modifier)
    }

    pub open spec fn aquaduct_cost(self) -> Option<int> {
        aquaduct_cost_of(self.tile_type, self.contents, self.cost_modifier)
    }

    pub open spec fn demolish_cost(self) -> Option<int> {
        demolish_cost_of(self.contents)
    }

    /// Whether the price of demolition fits the machine's integers.
    pub open spec fn demolish_cost_fits(self) -> bool {
        self.contents matches TileContents::Aquaduct(h) ==> 5 * h <= usize::MAX
    }

    fn get_modified_cost(&self, cost: usize) -> (r: Option<usize>)
        requires
            2 * cost <= usize::MAX,
        ensures
            same_cost(r, modified_cost(self.cost_modifier, cost as int)),
    {
        match self.cost_modifier {
            TileCostModifier::Normal => Some(cost),
            TileCostModifier::Multiplier => Some(cost * 2),
            TileCostModifier::Blocked => None,
        }
    }

    pub fn get_dig_cost(&self) -> (r: Option<usize>)
        ensures
            same_cost(r, self.dig_cost()),
    {
        if self.contents == TileContents::River {
            return None;
        }
        let type_cost: usize = match self.tile_type {
            TileType::Land => 3,
            TileType::Farm => 4,
            TileType::City => 6,
            TileType::Sea => 8,
        };
        let road_cost: usize = if self.contents == TileContents::Road {
            1
        } else {
            0
        };
        self.get_modified_cost(type_cost + road_cost)
    }

    pub fn get_lock_cost(&self) -> (r: Option<usize>)
        ensures
            same_cost(r, self.lock_cost()),
    {
        match self.get_dig_cost() {
            Some(a) => Some(a + 1),
            None => None,
        }
    }

    pub fn get_aquaduct_cost(&self) -> (r: Option<usize>)
        ensures
            same_cost(r, self.aquaduct_cost()),
    {
        match self.get_dig_cost() {
            Some(a) => Some(a + 2),
            None => None,
        }
    }

    pub fn get_demolish_cost(&self) -> (r: Option<usize>)
        requires
            self.demolish_cost_fits(),
        ensures
            same_cost(r, self.demolish_cost()),
    {
        match self.contents {
            TileContents::Empty => None,
            TileContents::Road => Some(1),
            TileContents::Canal => Some(3),
            TileContents::Lock => Some(4),
            TileContents::Aquaduct(h) => Some(5 * h),
            TileContents::River => None,
        }
    }
}

/// A coordinate pair, present only where both of its parts are.
pub fn tile_position(x: Option<usize>, y: Option<usize>) -> (r: Option<(usize, usize)>)
    ensures
        r == match (x, y) {
            (Some(a), Some(b)) => Some((a, b)),
            _ => None::<(usize, usize)>,
        },
{
    if let (Some(x), Some(y)) = (x, y) {
        Some((x, y))
    } else {
        None
    }
}

} // verus!
