//! A level as it is authored: the initial grid, its texts, the tools it
//! allows and the events it scripts.

use crate::game_state::GameActionMode;
use crate::tile::{TileContents, TileCostModifier, TileType};
use std::collections::VecDeque;
use vstd::prelude::*;

verus! {

/// The initial state of one cell.
#[derive(Debug, Clone, Copy, PartialEq, Eq, Structural)]
pub struct TileInfo {
    pub tile_type: TileType,
    pub contents: TileContents,
    pub is_goal: bool,
    pub cost_modifier: TileCostModifier,
    pub height: usize,
}

impl Default for TileInfo {
    fn default() -> (r: Self)
        ensures
            r == (TileInfo {
                tile_type: TileType::Land,
                contents: TileContents::Empty,
                is_goal: false,
                cost_modifier: TileCostModifier::Normal,
                height: 0,
            }),
    {
        TileInfo {
            tile_type: TileType::Land,
            contents: TileContents::Empty,
            is_goal: false,
            cost_modifier: TileCostModifier::Normal,
            height: 0,
        }
    }
}

/// Which construction tools the player may use.
#[derive(Debug, Clone, Copy, PartialEq, Eq, Structural)]
pub struct LevelTools {
    pub canal: bool,
    pub lock: bool,
    pub aquaduct: bool,
    pub demolish: bool,
}

impl Default for LevelTools {
    fn default() -> (r: Self)
        ensures
            r == (LevelTools { canal: true, lock: true, aquaduct: true, demolish: true }),
    {
        LevelTools { canal: true, lock: true, aquaduct: true, demolish: true }
    }
}

impl LevelTools {
    /// Whether the tool of the given mode is enabled; no tool belongs to
    /// `Idle`.
    pub open spec fn allows(self, mode: GameActionMode) -> bool {
        match mode {
            GameActionMode::Idle => false,
            GameActionMode::DigCanal => self.canal,
            GameActionMode::ConstructLock => self.lock,
            GameActionMode::BuildAquaduct => self.aquaduct,
            GameActionMode::Demolish => self.demolish,
        }
    }

    /// The tools with the one of the given mode switched; `Idle` switches
    /// nothing.
    pub open spec fn with_access(self, mode: GameActionMode, enabled: bool) -> LevelTools {
        match mode {
            GameActionMode::Idle => self,
            GameActionMode::DigCanal => LevelTools { canal: enabled, ..self },
            GameActionMode::ConstructLock => LevelTools { lock: enabled, ..self },
            GameActionMode::BuildAquaduct => LevelTools { aquaduct: enabled, ..self },
            GameActionMode::Demolish => LevelTools { demolish: enabled, ..self },
        }
    }
}

/// What makes a scripted event fire: the goal being reached, a number of
/// actions of any kind, or a number of actions of one kind. The flag says
/// whether only the actions since the previous event count.
#[derive(Debug, Clone, Copy, PartialEq, Eq, Structural)]
pub enum LevelEventType {
    GoalReached,
    AnyActionsComplete(usize, bool),
    BuiltNofType(usize, GameActionMode, bool),
}

/// One effect of a scripted event.
#[derive(Debug, Clone)]
pub enum EventAction {
    DisplayText { text: String, title: Option<String>, continue_button: Option<String> },
    SetSidebar(Option<String>),
    SetNewGoal(usize, usize),
    AdjustCost(usize, usize, TileCostModifier),
    AdjustContents(usize, usize, TileContents),
    SetHeight(usize, usize, usize),
    AdjustToolAccess(GameActionMode, bool),
}

/// A scripted event: its trigger and its effects in order.
#[derive(Debug, Clone)]
pub struct LevelEvent(pub LevelEventType, pub Vec<EventAction>);

/// The scripted events that have not fired yet, next one first.
#[derive(Debug, Clone)]
pub struct PendingLevelEvents(pub VecDeque<LevelEvent>);

/// One entry of the list of levels.
#[derive(Debug, Clone)]
pub struct LevelListing {
    pub name: String,
    pub file: String,
}

/// The list of levels on offer.
#[derive(Debug, Clone)]
pub struct LevelList {
    pub levels: Vec<LevelListing>,
}

/// A level: `tiles[x][y]` is the initial state of the cell at `(x, y)`.
#[derive(Debug, Clone)]
pub struct Level {
    pub tiles: Vec<Vec<TileInfo>>,
    pub title: Option<String>,
    pub initial_description: Option<String>,
    pub sidebar_text: Option<String>,
    pub width: usize,
    pub height: usize,
    pub events: Vec<LevelEvent>,
    pub tools: LevelTools,
}

} // verus!
