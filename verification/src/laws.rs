//! What holds of the simulation as a whole.

use crate::actions::wanted;
use crate::board::{Grid, carries_water, sound_wetness};
use crate::events::ActionTracker;
use crate::flow::{feeds, water_level};
use crate::game_state::{GameActionMode, GameActions};
use crate::level::LevelEventType;
use crate::session::Play;
use crate::simulation::{
    least_with, lemma_nearest_is_offered, lemma_nearest_is_sound, wetness_step,
};
use crate::tile::{Tile, TileContents, TileType};
use crate::wetness::Wetness;
use vstd::prelude::*;

verus! {

impl Grid {
    /// Whether cell `i` has settled: a cell that the water can change is dry
    /// with no water beside it, or wet exactly one step further than the
    /// nearest water beside it.
    pub open spec fn settled_at(self, i: int) -> bool {
        let tile = self.tiles[i];
        tile.wetness != Wetness::WaterSource && carries_water(tile.contents) ==> match (
            tile.wetness,
            self.nearest_water(i),
        ) {
            (Wetness::Dry, nearest) => nearest == Wetness::Dry,
            (Wetness::Wet(a), Wetness::WaterSource) => a == 1,
            (Wetness::Wet(a), Wetness::Wet(b)) => a == b + 1,
            (Wetness::Wet(_), Wetness::Dry) => false,
            (Wetness::WaterSource, _) => true,
        }
    }

    /// Whether the water has settled on the whole board.
    pub open spec fn settled(self) -> bool {
        forall|i: int| 0 <= i < self.tiles.len() ==> #[trigger] self.settled_at(i)
    }

    /// Whether the neighbour of cell `i` in direction `d` accounts for the
    /// cell being wet at distance `n`: the cell takes water from it, and it
    /// is a water source with `n` being one, or wet at distance `n - 1` with
    /// `n` greater than one.
    pub open spec fn fed_from(self, i: int, d: int, n: usize) -> bool {
        self.neighbour(i, d) matches Some(j) && feeds(self.tiles[i], self.tiles[j as int]) && (
        (self.tiles[j as int].wetness == Wetness::WaterSource && n == 1)
            || self.tiles[j as int].wetness == Wetness::Wet((n - 1) as usize) && n > 1)
    }

    /// Whether some neighbour accounts for cell `i` being wet at distance
    /// `n`.
    pub open spec fn has_predecessor(self, i: int, n: usize) -> bool {
        exists|d: int| 0 <= d < 4 && #[trigger] self.fed_from(i, d, n)
    }
}

/// On a board where the water has settled, one more pass of wetness changes
/// no cell, in either phase.
pub proof fn lemma_settled_pass_changes_nothing(grid: Grid, only_dry: bool)
    requires
        grid.settled(),
    ensures
        grid.after_wetness_pass(only_dry) == grid,
{
    let after = grid.after_wetness_pass(only_dry);
    assert forall|i: int| 0 <= i < grid.tiles.len() implies #[trigger] after.tiles[i]
        == grid.tiles[i] by {
        assert(grid.settled_at(i));
    }
    assert(after.tiles =~= grid.tiles);
}

/// A board that a pass of wetness leaves unchanged in both phases is one
/// where the water has settled.
pub proof fn lemma_unchanged_is_settled(grid: Grid)
    requires
        grid.after_wetness_pass(false) == grid,
        grid.after_wetness_pass(true) == grid,
    ensures
        grid.settled(),
{
    assert forall|i: int| 0 <= i < grid.tiles.len() implies #[trigger] grid.settled_at(i) by {
        assert(grid.after_wetness_pass(false).tiles[i] == grid.tiles[i]);
        assert(grid.after_wetness_pass(true).tiles[i] == grid.tiles[i]);
        assert(grid.next_wetness(i, false) == grid.tiles[i].wetness);
        assert(grid.next_wetness(i, true) == grid.tiles[i].wetness);
    }
}

/// On a well-formed board where the water has settled, every cell that is
/// wet at a distance has a neighbour that accounts for it: a water source
/// beside a cell at distance one, or a cell one step nearer.
pub proof fn lemma_settled_has_predecessor(grid: Grid, i: int, n: usize)
    requires
        grid.wf(),
        grid.settled(),
        0 <= i < grid.len(),
        grid.tiles[i].wetness == Wetness::Wet(n),
    ensures
        n >= 1,
        grid.has_predecessor(i, n),
{
    assert(sound_wetness(grid.tiles[i]));
    lemma_nearest_is_sound(grid, i);
    assert(grid.settled_at(i));
    lemma_nearest_is_offered(grid, i);
    assert(grid.nearest_water(i) != Wetness::Dry);
    let d = choose|d: int| 0 <= d < 4 && #[trigger] grid.inflow(i, d) == grid.nearest_water(i);
    lemma_inflow_is_neighbours(grid, i, d);
    assert(grid.fed_from(i, d, n));
}

/// A cell that a pass of wetness newly makes wet at a distance has a
/// neighbour, on the board before the pass, that accounts for it.
pub proof fn lemma_fresh_wetness_has_predecessor(grid: Grid, i: int, only_dry: bool, n: usize)
    requires
        grid.wf(),
        grid.distances_fit(),
        0 <= i < grid.len(),
        grid.next_wetness(i, only_dry) == Wetness::Wet(n),
        grid.tiles[i].wetness != Wetness::Wet(n),
    ensures
        n >= 1,
        grid.has_predecessor(i, n),
{
    lemma_nearest_is_offered(grid, i);
    lemma_nearest_is_sound(grid, i);
    let nearest = grid.nearest_water(i);
    assert(wetness_step(grid.tiles[i].wetness, nearest, only_dry) == Some(Wetness::Wet(n)));
    assert(nearest != Wetness::Dry);
    let d = choose|d: int| 0 <= d < 4 && #[trigger] grid.inflow(i, d) == grid.nearest_water(i);
    lemma_inflow_is_neighbours(grid, i, d);
    crate::board::lemma_neighbour_in_range(grid, i, d);
    let j = grid.neighbour(i, d)->0;
    assert(grid.tiles[j as int].wetness != Wetness::Wet(usize::MAX));
    assert(grid.fed_from(i, d, n));
}

/// Water that is offered comes from a neighbour the cell takes water from.
proof fn lemma_inflow_is_neighbours(grid: Grid, i: int, d: int)
    requires
        grid.inflow(i, d) != Wetness::Dry,
    ensures
        grid.neighbour(i, d) matches Some(j) && feeds(grid.tiles[i], grid.tiles[j as int])
            && grid.tiles[j as int].wetness == grid.inflow(i, d),
{
}

impl Grid {
    /// Whether the neighbour of cell `i` in direction `d` is not dry and
    /// its water stands at the given height.
    pub open spec fn water_beside(self, i: int, d: int, level: int) -> bool {
        self.neighbour(i, d) matches Some(j) && self.tiles[j as int].wetness != Wetness::Dry
            && water_level(self.tiles[j as int]) == level
    }
}

/// In a pass that is not confined to drying, a dry aqueduct becomes wet
/// exactly when the water of a neighbour that is not dry stands at the
/// height of its channel; otherwise it stays dry.
pub proof fn lemma_dry_aquaduct_wets_at_channel_height(grid: Grid, i: int, h: usize)
    requires
        grid.tiles[i].contents == TileContents::Aquaduct(h),
        grid.tiles[i].wetness == Wetness::Dry,
    ensures
        grid.next_wetness(i, false) is Wet <==> exists|d: int|
            0 <= d < 4 && #[trigger] grid.water_beside(i, d, grid.tiles[i].z + h),
        !(grid.next_wetness(i, false) is Wet) ==> grid.next_wetness(i, false) == Wetness::Dry,
{
    let level = grid.tiles[i].z + h;
    lemma_nearest_is_offered(grid, i);
    assert forall|d: int| 0 <= d < 4 implies (grid.inflow(i, d) != Wetness::Dry
        <==> #[trigger] grid.water_beside(i, d, level)) by {}
    if grid.nearest_water(i) != Wetness::Dry {
        let d = choose|d: int| 0 <= d < 4 && #[trigger] grid.inflow(i, d) == grid.nearest_water(i);
        assert(grid.water_beside(i, d, level));
    } else {
        assert(grid.inflow(i, 0) == Wetness::Dry && grid.inflow(i, 1) == Wetness::Dry
            && grid.inflow(i, 2) == Wetness::Dry && grid.inflow(i, 3) == Wetness::Dry);
        assert forall|d: int| 0 <= d < 4 implies !#[trigger] grid.water_beside(i, d, level) by {
            assert(grid.inflow(i, d) == Wetness::Dry);
        }
    }
}

/// An event that waits for `n` requests of any kind fires on the `n`-th:
/// with fewer than `n` counted so far, the next request makes it due
/// exactly when it is the `n`-th.
pub proof fn lemma_event_is_due_on_the_nth(
    tracker: ActionTracker,
    action: GameActions,
    n: usize,
    since_last_event: bool,
)
    requires
        tracker.has_room(action),
        tracker.count_any(since_last_event) < n,
    ensures
        tracker.recorded(action).reaches(LevelEventType::AnyActionsComplete(n, since_last_event))
            <==> tracker.count_any(since_last_event) + 1 == n,
        !tracker.reaches(LevelEventType::AnyActionsComplete(n, since_last_event)),
{
}

/// An event that waits for `n` requests of one kind fires on the `n`-th of
/// that kind, and a request of another kind does not bring it nearer.
pub proof fn lemma_event_is_due_on_the_nth_of_a_kind(
    tracker: ActionTracker,
    action: GameActions,
    n: usize,
    mode: GameActionMode,
    since_last_event: bool,
)
    requires
        tracker.has_room(action),
        tracker.count(mode, since_last_event) < n,
    ensures
        tracker.recorded(action).reaches(
            LevelEventType::BuiltNofType(n, mode, since_last_event),
        ) <==> action.mode() == mode && tracker.count(mode, since_last_event) + 1 == n,
{
}

/// The source a cell takes in a pass of sources is its own or one that a
/// neighbour shares with it.
pub proof fn lemma_next_source_is_candidate(grid: Grid, i: int)
    ensures
        grid.next_source(i) == grid.sources[i] || exists|d: int|
            0 <= d < 4 && #[trigger] grid.shared_source(i, d) == Some(grid.next_source(i)),
{
    let a = least_with(grid.sources[i], grid.shared_source(i, 0));
    let b = least_with(a, grid.shared_source(i, 1));
    let c = least_with(b, grid.shared_source(i, 2));
    let e = least_with(c, grid.shared_source(i, 3));
    assert(a == grid.sources[i] || grid.shared_source(i, 0) == Some(a));
    assert(b == a || grid.shared_source(i, 1) == Some(b));
    assert(c == b || grid.shared_source(i, 2) == Some(c));
    assert(e == c || grid.shared_source(i, 3) == Some(e));
}

/// The source a cell takes in a pass of sources is the least on offer:
/// neither its own source nor any that a neighbour shares with it comes
/// before it.
pub proof fn lemma_next_source_is_least(grid: Grid, i: int)
    ensures
        !grid.sources[i].precedes(grid.next_source(i)),
        forall|d: int|
            0 <= d < 4 ==> (#[trigger] grid.shared_source(i, d) matches Some(s) ==> !s.precedes(
                grid.next_source(i),
            )),
{
    let a = least_with(grid.sources[i], grid.shared_source(i, 0));
    let b = least_with(a, grid.shared_source(i, 1));
    let c = least_with(b, grid.shared_source(i, 2));
    let e = least_with(c, grid.shared_source(i, 3));
    assert(!grid.sources[i].precedes(a));
    assert(!a.precedes(b) && !b.precedes(c) && !c.precedes(e));
    assert forall|d: int| 0 <= d < 4 implies (#[trigger] grid.shared_source(i, d) matches Some(
        s,
    ) ==> !s.precedes(e)) by {
        if d == 0 {
        } else if d == 1 {
        } else if d == 2 {
        } else {
        }
    }
}

/// Where two goal cells are fed by different sources, the goal is not
/// reached, however wet both are.
pub proof fn lemma_two_sources_miss_goal(grid: Grid, i: int, j: int)
    requires
        0 <= i < grid.len(),
        0 <= j < grid.len(),
        grid.tiles[i].is_goal,
        grid.tiles[j].is_goal,
        grid.sources[i] != grid.sources[j],
    ensures
        !grid.goal_reached(),
{
}

/// Digging costs more on farmland than on land, more in a city than on
/// farmland, and most in the sea, wherever it can be priced at all.
pub proof fn lemma_dig_cost_rises_with_terrain(land: Tile, farm: Tile, city: Tile, sea: Tile)
    requires
        land.tile_type == TileType::Land,
        farm.tile_type == TileType::Farm,
        city.tile_type == TileType::City,
        sea.tile_type == TileType::Sea,
        land.contents == farm.contents && farm.contents == city.contents && city.contents
            == sea.contents,
        land.cost_modifier == farm.cost_modifier && farm.cost_modifier == city.cost_modifier
            && city.cost_modifier == sea.cost_modifier,
        land.dig_cost() is Some,
    ensures
        farm.dig_cost() is Some && city.dig_cost() is Some && sea.dig_cost() is Some,
        land.dig_cost()->0 < farm.dig_cost()->0 < city.dig_cost()->0 < sea.dig_cost()->0,
{
}

/// What construction costs depends on nothing but the cell's terrain, what
/// is built on it and the cost modifier.
pub proof fn lemma_costs_depend_on_kind(a: Tile, b: Tile)
    requires
        a.tile_type == b.tile_type,
        a.contents == b.contents,
        a.cost_modifier == b.cost_modifier,
    ensures
        a.dig_cost() == b.dig_cost(),
        a.lock_cost() == b.lock_cost(),
        a.aquaduct_cost() == b.aquaduct_cost(),
        a.demolish_cost() == b.demolish_cost(),
{
}

/// What demolition costs depends on nothing but what is built on the
/// cell.
pub proof fn lemma_demolish_cost_by_contents(a: Tile, b: Tile)
    requires
        a.contents == b.contents,
    ensures
        a.demolish_cost() == b.demolish_cost(),
        a.demolish_cost_fits() == b.demolish_cost_fits(),
{
}

/// A request for what a cell holds already changes neither the board nor
/// the money spent.
pub proof fn lemma_redundant_request_rejected(play: Play, action: GameActions)
    requires
        play.grid.target_of(action) matches Some(i) ==> play.grid.tiles[i as int].contents
            == wanted(action),
    ensures
        play.grid.after_action(action) == play.grid,
        play.grid.charge(action) == 0,
        play.after_act(action) == play,
{
}

} // verus!
