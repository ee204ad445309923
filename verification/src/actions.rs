//! Construction: how the pointer's events become requests to build, and how
//! a request is checked against the board, paid for and carried out.

use crate::board::{Board, Grid, TileEvent, lemma_same_layout_wf, sound_wetness};
use crate::game_state::{GameActionMode, GameActions, GameResources};
use crate::level::LevelTools;
use crate::tile::{Tile, TileContents, TileCostModifier};
use crate::wetness::Wetness;
use vstd::prelude::*;

verus! {

/// The height of the water channel of the aqueduct built last, above the
/// ground: dragging extends an aqueduct at this height.
#[derive(Debug, Clone, Copy, PartialEq, Eq, Structural)]
pub struct LastAquaductHeight(pub usize);

/// What a request would leave on the cell.
pub open spec fn wanted(action: GameActions) -> TileContents {
    match action {
        GameActions::DigCanal(_) => TileContents::Canal,
        GameActions::ConstructLock(_) => TileContents::Lock,
        GameActions::BuildAquaduct(_, h) => TileContents::Aquaduct(h),
        GameActions::Demolish(_) => TileContents::Empty,
    }
}

/// What a request costs on a cell, where it can be priced.
pub open spec fn price(action: GameActions, tile: Tile) -> Option<int> {
    match action {
        GameActions::DigCanal(_) => tile.dig_cost(),
        GameActions::ConstructLock(_) => tile.lock_cost(),
        GameActions::BuildAquaduct(_, _) => tile.aquaduct_cost(),
        GameActions::Demolish(_) => tile.demolish_cost(),
    }
}

/// Whether a request may be carried out on a cell as it is now: the cell
/// does not hold what is wanted already, no river runs through it,
/// construction is not blocked on it, and the request has a price.
pub open spec fn permitted(action: GameActions, tile: Tile) -> bool {
    &&& tile.contents != wanted(action)
    &&& tile.contents != TileContents::River
    &&& tile.cost_modifier != TileCostModifier::Blocked
    &&& price(action, tile) is Some
}

/// The cell after a request has been carried out on it: it holds what was
/// wanted and is dry.
pub open spec fn built(tile: Tile, action: GameActions) -> Tile {
    Tile { contents: wanted(action), wetness: Wetness::Dry, ..tile }
}

impl Grid {
    /// The board with cell `i` replaced.
    pub open spec fn with_tile(self, i: int, tile: Tile) -> Grid {
        Grid { tiles: self.tiles.update(i, tile), ..self }
    }

    /// The cell a request is about: the one that stands now at the
    /// coordinates of the cell the request carries.
    pub open spec fn target_of(self, action: GameActions) -> Option<usize> {
        self.child(action.target().x, action.target().y)
    }

    /// Whether a request is carried out: its cell is on the board and the
    /// request is permitted on the cell as it is now.
    pub open spec fn accepts(self, action: GameActions) -> bool {
        self.target_of(action) matches Some(i) && permitted(action, self.tiles[i as int])
    }

    /// The board after a request: its cell built upon where the request is
    /// carried out, the board as it was otherwise.
    pub open spec fn after_action(self, action: GameActions) -> Grid {
        if self.accepts(action) {
            let i = self.target_of(action)->0 as int;
            self.with_tile(i, built(self.tiles[i], action))
        } else {
            self
        }
    }

    /// What a request adds to the money spent: its price where it is
    /// carried out, nothing otherwise.
    pub open spec fn charge(self, action: GameActions) -> int {
        if self.accepts(action) {
            price(action, self.tiles[self.target_of(action)->0 as int])->0
        } else {
            0
        }
    }
}

/// Replacing a cell by one with the same coordinates and a sound wetness
/// leaves a well-formed board well formed.
pub proof fn lemma_with_tile_wf(grid: Grid, i: int, tile: Tile)
    requires
        grid.wf(),
        0 <= i < grid.len(),
        tile.x == grid.tiles[i].x,
        tile.y == grid.tiles[i].y,
        sound_wetness(tile),
    ensures
        grid.with_tile(i, tile).wf(),
{
    let after = grid.with_tile(i, tile);
    assert(grid.same_layout(after));
    assert forall|k: int| 0 <= k < after.tiles.len() implies sound_wetness(
        #[trigger] after.tiles[k],
    ) by {
        assert(sound_wetness(grid.tiles[k]));
    }
    lemma_same_layout_wf(grid, after);
}

/// Carries out a request on the cell that stands now where the request
/// points, if it is permitted there, and charges its price.
fn carry_out(action: &GameActions, board: &mut Board, resources: &mut GameResources)
    requires
        old(board)@.wf(),
        old(resources).cost_so_far + old(board)@.charge(*action) <= usize::MAX,
    ensures
        final(board)@ == old(board)@.after_action(*action),
        final(resources).cost_so_far == old(resources).cost_so_far + old(board)@.charge(*action),
        final(board)@.wf(),
{
    let (snapshot, target): (Tile, TileContents) = match *action {
        GameActions::DigCanal(t) => (t, TileContents::Canal),
        GameActions::ConstructLock(t) => (t, TileContents::Lock),
        GameActions::BuildAquaduct(t, h) => (t, TileContents::Aquaduct(h)),
        GameActions::Demolish(t) => (t, TileContents::Empty),
    };
    if let Some(i) = board.child(snapshot.x, snapshot.y) {
        let tile: Tile = board.tiles[i];
        if tile.contents == target || tile.contents == TileContents::River || tile.cost_modifier
            == TileCostModifier::Blocked {
            return ;
        }
        let cost: Option<usize> = match *action {
            GameActions::DigCanal(_) => tile.get_dig_cost(),
            GameActions::ConstructLock(_) => tile.get_lock_cost(),
            GameActions::BuildAquaduct(_, _) => tile.get_aquaduct_cost(),
            GameActions::Demolish(_) => {
                assert(old(board)@.accepts(*action));
                tile.get_demolish_cost()
            },
        };
        if let Some(cost) = cost {
            assert(old(board)@.accepts(*action));
            resources.cost_so_far = resources.cost_so_far + cost;
            let ghost before = board@;
            board.tiles[i] = Tile { contents: target, wetness: Wetness::Dry, ..tile };
            proof {
                assert(board@.tiles == before.tiles.update(i as int, built(tile, *action)));
                assert(board@ == before.with_tile(i as int, built(tile, *action)));
                lemma_with_tile_wf(before, i as int, built(tile, *action));
            }
        }
    }
}

/// What a request would add to the money spent on the board as it is, or
/// `None` where that is more than the machine's integers hold.
pub fn charge_of(board: &Board, action: &GameActions) -> (r: Option<usize>)
    requires
        board@.wf(),
    ensures
        match r {
            Some(cost) => cost == board@.charge(*action),
            None => board@.charge(*action) > usize::MAX,
        },
{
    let (snapshot, target): (Tile, TileContents) = match *action {
        GameActions::DigCanal(t) => (t, TileContents::Canal),
        GameActions::ConstructLock(t) => (t, TileContents::Lock),
        GameActions::BuildAquaduct(t, h) => (t, TileContents::Aquaduct(h)),
        GameActions::Demolish(t) => (t, TileContents::Empty),
    };
    if let Some(i) = board.child(snapshot.x, snapshot.y) {
        let tile: Tile = board.tiles[i];
        if tile.contents == target || tile.contents == TileContents::River || tile.cost_modifier
            == TileCostModifier::Blocked {
            return Some(0);
        }
        let cost: Option<usize> = match *action {
            GameActions::DigCanal(_) => tile.get_dig_cost(),
            GameActions::ConstructLock(_) => tile.get_lock_cost(),
            GameActions::BuildAquaduct(_, _) => tile.get_aquaduct_cost(),
            GameActions::Demolish(_) => match tile.contents {
                TileContents::Aquaduct(h) => {
                    return h.checked_mul(5);
                },
                _ => tile.get_demolish_cost(),
            },
        };
        match cost {
            Some(cost) => Some(cost),
            None => Some(0),
        }
    } else {
        Some(0)
    }
}

/// Digs a canal where a request to dig asks for one; any other request is
/// left alone.
pub fn dig_canal(action: &GameActions, board: &mut Board, resources: &mut GameResources)
    requires
        old(board)@.wf(),
        *action is DigCanal ==> old(resources).cost_so_far + old(board)@.charge(*action)
            <= usize::MAX,
    ensures
        final(board)@.wf(),
        *action is DigCanal ==> final(board)@ == old(board)@.after_action(*action)
            && final(resources).cost_so_far == old(resources).cost_so_far + old(board)@.charge(
            *action,
        ),
        !(*action is DigCanal) ==> final(board)@ == old(board)@ && *final(resources) == *old(resources),
{
    if let GameActions::DigCanal(_) = action {
        carry_out(action, board, resources);
    }
}

/// Builds a lock where a request for a lock asks for one; any other
/// request is left alone.
pub fn dig_lock(action: &GameActions, board: &mut Board, resources: &mut GameResources)
    requires
        old(board)@.wf(),
        *action is ConstructLock ==> old(resources).cost_so_far + old(board)@.charge(*action)
            <= usize::MAX,
    ensures
        final(board)@.wf(),
        *action is ConstructLock ==> final(board)@ == old(board)@.after_action(*action)
            && final(resources).cost_so_far == old(resources).cost_so_far + old(board)@.charge(
            *action,
        ),
        !(*action is ConstructLock) ==> final(board)@ == old(board)@ && *final(resources) == *old(resources),
{
    if let GameActions::ConstructLock(_) = action {
        carry_out(action, board, resources);
    }
}

/// Builds an aqueduct of the height asked for where a request for an
/// aqueduct asks for one; any other request is left alone.
pub fn build_aquaduct(action: &GameActions, board: &mut Board, resources: &mut GameResources)
    requires
        old(board)@.wf(),
        *action is BuildAquaduct ==> old(resources).cost_so_far + old(board)@.charge(*action)
            <= usize::MAX,
    ensures
        final(board)@.wf(),
        *action is BuildAquaduct ==> final(board)@ == old(board)@.after_action(*action)
            && final(resources).cost_so_far == old(resources).cost_so_far + old(board)@.charge(
            *action,
        ),
        !(*action is BuildAquaduct) ==> final(board)@ == old(board)@ && *final(resources) == *old(resources),
{
    if let GameActions::BuildAquaduct(_, _) = action {
        carry_out(action, board, resources);
    }
}

/// Clears a cell where a request to demolish asks for it; any other
/// request is left alone.
pub fn demolish(action: &GameActions, board: &mut Board, resources: &mut GameResources)
    requires
        old(board)@.wf(),
        *action is Demolish ==> old(resources).cost_so_far + old(board)@.charge(*action)
            <= usize::MAX,
    ensures
        final(board)@.wf(),
        *action is Demolish ==> final(board)@ == old(board)@.after_action(*action)
            && final(resources).cost_so_far == old(resources).cost_so_far + old(board)@.charge(
            *action,
        ),
        !(*action is Demolish) ==> final(board)@ == old(board)@ && *final(resources) == *old(resources),
{
    if let GameActions::Demolish(_) = action {
        carry_out(action, board, resources);
    }
}

/// Whether a request is let through: its tool is the one selected, and the
/// level allows that tool.
pub open spec fn let_through(mode: GameActionMode, tools: LevelTools, action: GameActions) -> bool {
    action.mode() == mode && tools.allows(mode)
}

/// Carries out a request with the tool that is selected: nothing happens
/// unless the request is of that tool and the level allows the tool.
pub fn apply_action(
    mode: GameActionMode,
    tools: &LevelTools,
    action: &GameActions,
    board: &mut Board,
    resources: &mut GameResources,
)
    requires
        old(board)@.wf(),
        let_through(mode, *tools, *action) ==> old(resources).cost_so_far + old(board)@.charge(
            *action,
        ) <= usize::MAX,
    ensures
        final(board)@.wf(),
        let_through(mode, *tools, *action) ==> final(board)@ == old(board)@.after_action(*action)
            && final(resources).cost_so_far == old(resources).cost_so_far + old(board)@.charge(
            *action,
        ),
        !let_through(mode, *tools, *action) ==> final(board)@ == old(board)@ && *final(resources)
            == *old(resources),
{
    match mode {
        GameActionMode::Idle => {},
        GameActionMode::DigCanal => {
            if tools.canal {
                dig_canal(action, board, resources);
            }
        },
        GameActionMode::ConstructLock => {
            if tools.lock {
                dig_lock(action, board, resources);
            }
        },
        GameActionMode::BuildAquaduct => {
            if tools.aquaduct {
                build_aquaduct(action, board, resources);
            }
        },
        GameActionMode::Demolish => {
            if tools.demolish {
                demolish(action, board, resources);
            }
        },
    }
}

/// The cell an event is about when it asks for construction: a click
/// always does, the start of a hover does while the button is held.
pub open spec fn asks(event: TileEvent, pressed: bool) -> Option<Tile> {
    match event {
        TileEvent::Clicked(tile, _) => Some(tile),
        TileEvent::HoverStarted(tile, _) => if pressed {
            Some(tile)
        } else {
            None
        },
        TileEvent::HoverEnded(_, _) => None,
    }
}

/// The request to dig a canal that an event gives rise to, if any.
pub fn trigger_dig_canal(event: &TileEvent, pressed: bool) -> (r: Option<GameActions>)
    ensures
        r == match asks(*event, pressed) {
            Some(tile) => Some(GameActions::DigCanal(tile)),
            None => None,
        },
{
    match *event {
        TileEvent::Clicked(tile, _) => Some(GameActions::DigCanal(tile)),
        TileEvent::HoverStarted(tile, _) => {
            if pressed {
                Some(GameActions::DigCanal(tile))
            } else {
                None
            }
        },
        _ => None,
    }
}

/// The request for a lock that an event gives rise to, if any.
pub fn trigger_dig_lock(event: &TileEvent, pressed: bool) -> (r: Option<GameActions>)
    ensures
        r == match asks(*event, pressed) {
            Some(tile) => Some(GameActions::ConstructLock(tile)),
            None => None,
        },
{
    match *event {
        TileEvent::Clicked(tile, _) => Some(GameActions::ConstructLock(tile)),
        TileEvent::HoverStarted(tile, _) => {
            if pressed {
                Some(GameActions::ConstructLock(tile))
            } else {
                None
            }
        },
        _ => None,
    }
}

/// The request to demolish that an event gives rise to, if any.
pub fn trigger_demolish(event: &TileEvent, pressed: bool) -> (r: Option<GameActions>)
    ensures
        r == match asks(*event, pressed) {
            Some(tile) => Some(GameActions::Demolish(tile)),
            None => None,
        },
{
    match *event {
        TileEvent::Clicked(tile, _) => Some(GameActions::Demolish(tile)),
        TileEvent::HoverStarted(tile, _) => {
            if pressed {
                Some(GameActions::Demolish(tile))
            } else {
                None
            }
        },
        _ => None,
    }
}

/// The height above the cell that a click asks of an aqueduct: one more
/// than the aqueduct that stands there, or one.
pub open spec fn raised(tile: Tile) -> int {
    match tile.contents {
        TileContents::Aquaduct(h) => h + 1,
        _ => 1,
    }
}

/// The request for an aqueduct that an event gives rise to, with the
/// height remembered afterwards. A click raises the cell's aqueduct by one
/// and remembers the height its channel then has above the ground. The
/// start of a hover with the button held asks for an aqueduct up to the
/// remembered height, on a cell that lies below it.
pub open spec fn aquaduct_request(event: TileEvent, pressed: bool, last: usize) -> (
    Option<GameActions>,
    int,
) {
    match event {
        TileEvent::Clicked(tile, _) => (
            Some(GameActions::BuildAquaduct(tile, raised(tile) as usize)),
            raised(tile) + tile.z,
        ),
        TileEvent::HoverStarted(tile, _) => if pressed && tile.z < last {
            (Some(GameActions::BuildAquaduct(tile, (last - tile.z) as usize)), last as int)
        } else {
            (None, last as int)
        },
        TileEvent::HoverEnded(_, _) => (None, last as int),
    }
}

/// The request for an aqueduct that an event gives rise to, if any.
pub fn trigger_build_aquaduct(
    event: &TileEvent,
    pressed: bool,
    aquaduct_height: &mut LastAquaductHeight,
) -> (r: Option<GameActions>)
    requires
        aquaduct_request(*event, pressed, old(aquaduct_height).0).1 <= usize::MAX,
    ensures
        r == aquaduct_request(*event, pressed, old(aquaduct_height).0).0,
        final(aquaduct_height).0 == aquaduct_request(*event, pressed, old(aquaduct_height).0).1,
{
    match *event {
        TileEvent::Clicked(tile, _) => {
            if let TileContents::Aquaduct(h) = tile.contents {
                aquaduct_height.0 = h + 1 + tile.z;
                Some(GameActions::BuildAquaduct(tile, h + 1))
            } else {
                aquaduct_height.0 = 1 + tile.z;
                Some(GameActions::BuildAquaduct(tile, 1))
            }
        },
        TileEvent::HoverStarted(tile, _) => {
            if pressed && tile.z < aquaduct_height.0 {
                Some(GameActions::BuildAquaduct(tile, aquaduct_height.0 - tile.z))
            } else {
                None
            }
        },
        _ => None,
    }
}

/// The request that an event gives rise to with the tool that is selected,
/// and the aqueduct height remembered afterwards: nothing is asked with no
/// tool, or with a tool that the level does not allow.
pub open spec fn request(
    mode: GameActionMode,
    tools: LevelTools,
    event: TileEvent,
    pressed: bool,
    last: usize,
) -> (Option<GameActions>, int) {
    if !tools.allows(mode) {
        (None, last as int)
    } else {
        match mode {
            GameActionMode::Idle => (None, last as int),
            GameActionMode::DigCanal => (
                match asks(event, pressed) {
                    Some(tile) => Some(GameActions::DigCanal(tile)),
                    None => None,
                },
                last as int,
            ),
            GameActionMode::ConstructLock => (
                match asks(event, pressed) {
                    Some(tile) => Some(GameActions::ConstructLock(tile)),
                    None => None,
                },
                last as int,
            ),
            GameActionMode::BuildAquaduct => aquaduct_request(event, pressed, last),
            GameActionMode::Demolish => (
                match asks(event, pressed) {
                    Some(tile) => Some(GameActions::Demolish(tile)),
                    None => None,
                },
                last as int,
            ),
        }
    }
}

/// Whether the aqueduct height that an event would leave remembered fits
/// the machine's integers.
pub fn request_fits(
    mode: GameActionMode,
    tools: &LevelTools,
    event: &TileEvent,
    pressed: bool,
    aquaduct_height: &LastAquaductHeight,
) -> (fits: bool)
    ensures
        fits == (request(mode, *tools, *event, pressed, aquaduct_height.0).1 <= usize::MAX),
{
    if mode == GameActionMode::BuildAquaduct && tools.aquaduct {
        match *event {
            TileEvent::Clicked(tile, _) => {
                let raise: Option<usize> = match tile.contents {
                    TileContents::Aquaduct(h) => h.checked_add(1),
                    _ => Some(1),
                };
                match raise {
                    Some(h) => h.checked_add(tile.z).is_some(),
                    None => false,
                }
            },
            _ => true,
        }
    } else {
        true
    }
}

/// Turns an event of the pointer into a request with the tool that is
/// selected.
pub fn trigger_action(
    mode: GameActionMode,
    tools: &LevelTools,
    event: &TileEvent,
    pressed: bool,
    aquaduct_height: &mut LastAquaductHeight,
) -> (r: Option<GameActions>)
    requires
        request(mode, *tools, *event, pressed, old(aquaduct_height).0).1 <= usize::MAX,
    ensures
        r == request(mode, *tools, *event, pressed, old(aquaduct_height).0).0,
        final(aquaduct_height).0 == request(mode, *tools, *event, pressed, old(aquaduct_height).0).1,
{
    match mode {
        GameActionMode::Idle => None,
        GameActionMode::DigCanal => {
            if tools.canal {
                trigger_dig_canal(event, pressed)
            } else {
                None
            }
        },
        GameActionMode::ConstructLock => {
            if tools.lock {
                trigger_dig_lock(event, pressed)
            } else {
                None
            }
        },
        GameActionMode::BuildAquaduct => {
            if tools.aquaduct {
                trigger_build_aquaduct(event, pressed, aquaduct_height)
            } else {
                None
            }
        },
        GameActionMode::Demolish => {
            if tools.demolish {
                trigger_demolish(event, pressed)
            } else {
                None
            }
        },
    }
}

} // verus!
