//! Phases of a level, the construction tools, and the messages that ask
//! for construction.

use crate::tile::Tile;
use vstd::prelude::*;

verus! {

/// The phase a level is in.
#[derive(Debug, Clone, Copy, PartialEq, Eq, Hash, Structural)]
pub enum GameState {
    Setup,
    Description,
    InGame,
    Editor,
    Complete,
}

impl Default for GameState {
    fn default() -> (r: Self)
        ensures
            r == GameState::Setup,
    {
        GameState::Setup
    }
}

/// The construction tool that is selected.
#[derive(Debug, Clone, Copy, PartialEq, Eq, Hash, Structural)]
pub enum GameActionMode {
    Idle,
    DigCanal,
    ConstructLock,
    BuildAquaduct,
    Demolish,
}

impl Default for GameActionMode {
    fn default() -> (r: Self)
        ensures
            r == GameActionMode::Idle,
    {
        GameActionMode::Idle
    }
}

/// What the player has spent on the level so far.
#[derive(Debug, Clone, Copy, PartialEq, Eq, Structural)]
pub struct GameResources {
    pub cost_so_far: usize,
}

impl Default for GameResources {
    fn default() -> (r: Self)
        ensures
            r.cost_so_far == 0,
    {
        GameResources { cost_so_far: 0 }
    }
}

/// A request to build on a cell. It carries the cell as it looked when the
/// request was made; an aqueduct also carries the height asked for.
#[derive(Debug, Clone, Copy, PartialEq, Eq, Structural)]
pub enum GameActions {
    DigCanal(Tile),
    ConstructLock(Tile),
    BuildAquaduct(Tile, usize),
    Demolish(Tile),
}

impl GameActions {
    /// The tool that makes this request.
    pub open spec fn mode(self) -> GameActionMode {
        match self {
            GameActions::DigCanal(_) => GameActionMode::DigCanal,
            GameActions::ConstructLock(_) => GameActionMode::ConstructLock,
            GameActions::BuildAquaduct(_, _) => GameActionMode::BuildAquaduct,
            GameActions::Demolish(_) => GameActionMode::Demolish,
        }
    }

    /// The cell the request is about, as it looked when the request was made.
    pub open spec fn target(self) -> Tile {
        match self {
            GameActions::DigCanal(t) => t,
            GameActions::ConstructLock(t) => t,
            GameActions::BuildAquaduct(t, _) => t,
            GameActions::Demolish(t) => t,
        }
    }
}

} // verus!
