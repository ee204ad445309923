//! Progress through a level: counting what the player does, checking
//! whether the goal is reached, and carrying out the events that the level
//! scripts.

use crate::actions::lemma_with_tile_wf;
use crate::board::{Board, Grid, lemma_same_layout_wf, sound_wetness};
use crate::game_state::{GameActionMode, GameActions, GameState};
use crate::level::{EventAction, LevelEvent, LevelEventType, LevelTools, PendingLevelEvents};
use crate::tile::{Tile, TileContents};
use crate::wetness::{Wetness, WetnessSource};
use vstd::prelude::*;

verus! {

/// The hint shown beside the board, if any.
#[derive(Debug, Clone)]
pub struct SidebarText(pub Option<String>);

/// The text that is to be shown to the player before play goes on.
#[derive(Debug, Clone)]
pub struct CurrentDescription {
    pub title: Option<String>,
    pub text: Option<String>,
    pub continue_button: Option<String>,
}

/// How many requests of each kind have been made, in all and since the last
/// scripted event.
#[derive(Debug, Clone, Copy, PartialEq, Eq, Structural)]
pub struct ActionTracker {
    pub canals: usize,
    pub locks: usize,
    pub aquaducts: usize,
    pub demolished: usize,
    pub total: usize,
    pub canals_since_last_event: usize,
    pub locks_since_last_event: usize,
    pub aquaducts_since_last_event: usize,
    pub demolished_since_last_event: usize,
    pub total_since_last_event: usize,
}

impl Default for ActionTracker {
    fn default() -> (r: Self)
        ensures
            r == ActionTracker::fresh(),
    {
        ActionTracker {
            canals: 0,
            locks: 0,
            aquaducts: 0,
            demolished: 0,
            total: 0,
            canals_since_last_event: 0,
            locks_since_last_event: 0,
            aquaducts_since_last_event: 0,
            demolished_since_last_event: 0,
            total_since_last_event: 0,
        }
    }
}

impl ActionTracker {
    /// The counts before anything has been done.
    pub open spec fn fresh() -> ActionTracker {
        ActionTracker {
            canals: 0,
            locks: 0,
            aquaducts: 0,
            demolished: 0,
            total: 0,
            canals_since_last_event: 0,
            locks_since_last_event: 0,
            aquaducts_since_last_event: 0,
            demolished_since_last_event: 0,
            total_since_last_event: 0,
        }
    }

    /// The number of requests made with a tool, in all or since the last
    /// event; none is ever made with no tool.
    pub open spec fn count(self, mode: GameActionMode, since_last_event: bool) -> usize {
        match mode {
            GameActionMode::Idle => 0,
            GameActionMode::DigCanal => if since_last_event {
                self.canals_since_last_event
            } else {
                self.canals
            },
            GameActionMode::ConstructLock => if since_last_event {
                self.locks_since_last_event
            } else {
                self.locks
            },
            GameActionMode::BuildAquaduct => if since_last_event {
                self.aquaducts_since_last_event
            } else {
                self.aquaducts
            },
            GameActionMode::Demolish => if since_last_event {
                self.demolished_since_last_event
            } else {
                self.demolished
            },
        }
    }

    /// The number of requests of any kind, in all or since the last event.
    pub open spec fn count_any(self, since_last_event: bool) -> usize {
        if since_last_event {
            self.total_since_last_event
        } else {
            self.total
        }
    }

    /// Whether one more request of this kind can still be counted.
    pub open spec fn has_room(self, action: GameActions) -> bool {
        &&& self.total < usize::MAX
        &&& self.total_since_last_event < usize::MAX
        &&& self.count(action.mode(), false) < usize::MAX
        &&& self.count(action.mode(), true) < usize::MAX
    }

    /// The counts after one more request: its own kind and the total grow by
    /// one, in all and since the last event.
    pub open spec fn recorded(self, action: GameActions) -> ActionTracker {
        let counted = match action {
            GameActions::DigCanal(_) => ActionTracker {
                canals: (self.canals + 1) as usize,
                canals_since_last_event: (self.canals_since_last_event + 1) as usize,
                ..self
            },
            GameActions::ConstructLock(_) => ActionTracker {
                locks: (self.locks + 1) as usize,
                locks_since_last_event: (self.locks_since_last_event + 1) as usize,
                ..self
            },
            GameActions::BuildAquaduct(_, _) => ActionTracker {
                aquaducts: (self.aquaducts + 1) as usize,
                aquaducts_since_last_event: (self.aquaducts_since_last_event + 1) as usize,
                ..self
            },
            GameActions::Demolish(_) => ActionTracker {
                demolished: (self.demolished + 1) as usize,
                demolished_since_last_event: (self.demolished_since_last_event + 1) as usize,
                ..self
            },
        };
        ActionTracker {
            total: (self.total + 1) as usize,
            total_since_last_event: (self.total_since_last_event + 1) as usize,
            ..counted
        }
    }

    /// The counts after an event has fired: those since the last event
    /// start again at nothing.
    pub open spec fn after_event(self) -> ActionTracker {
        ActionTracker {
            canals_since_last_event: 0,
            locks_since_last_event: 0,
            aquaducts_since_last_event: 0,
            demolished_since_last_event: 0,
            total_since_last_event: 0,
            ..self
        }
    }

    /// Whether the counts have reached what an event waits for. An event
    /// that waits for the goal is never due by counting.
    pub open spec fn reaches(self, trigger: LevelEventType) -> bool {
        match trigger {
            LevelEventType::GoalReached => false,
            LevelEventType::AnyActionsComplete(n, since_last_event) => n <= self.count_any(
                since_last_event,
            ),
            LevelEventType::BuiltNofType(n, mode, since_last_event) => n <= self.count(
                mode,
                since_last_event,
            ),
        }
    }
}

/// Whether one more request of this kind can still be counted.
pub fn has_room(action_tracker: &ActionTracker, action: &GameActions) -> (room: bool)
    ensures
        room == action_tracker.has_room(*action),
{
    let (all, since): (usize, usize) = match *action {
        GameActions::DigCanal(_) => (action_tracker.canals, action_tracker.canals_since_last_event),
        GameActions::ConstructLock(_) => (
            action_tracker.locks,
            action_tracker.locks_since_last_event,
        ),
        GameActions::BuildAquaduct(_, _) => (
            action_tracker.aquaducts,
            action_tracker.aquaducts_since_last_event,
        ),
        GameActions::Demolish(_) => (
            action_tracker.demolished,
            action_tracker.demolished_since_last_event,
        ),
    };
    action_tracker.total < usize::MAX && action_tracker.total_since_last_event < usize::MAX && all
        < usize::MAX && since < usize::MAX
}

/// Whether the next pending event is due by the counts.
pub open spec fn next_is_due(tracker: ActionTracker, pending: Seq<LevelEvent>) -> bool {
    pending.len() > 0 && tracker.reaches(pending[0].0)
}

/// Counts one request, and hands out the next pending event if the counts
/// have now reached what it waits for.
pub fn track_actions(
    action: &GameActions,
    action_tracker: &mut ActionTracker,
    level_events: &mut PendingLevelEvents,
) -> (fired: Option<LevelEvent>)
    requires
        old(action_tracker).has_room(*action),
    ensures
        *final(action_tracker) == old(action_tracker).recorded(*action),
        next_is_due(*final(action_tracker), old(level_events).0@) ==> fired == Some(
            old(level_events).0@[0],
        ) && final(level_events).0@ == old(level_events).0@.subrange(
            1,
            old(level_events).0@.len() as int,
        ),
        !next_is_due(*final(action_tracker), old(level_events).0@) ==> fired is None && final(level_events).0@ == old(level_events).0@,
{
    match *action {
        GameActions::DigCanal(_) => {
            action_tracker.canals = action_tracker.canals + 1;
            action_tracker.canals_since_last_event = action_tracker.canals_since_last_event + 1;
        },
        GameActions::ConstructLock(_) => {
            action_tracker.locks = action_tracker.locks + 1;
            action_tracker.locks_since_last_event = action_tracker.locks_since_last_event + 1;
        },
        GameActions::BuildAquaduct(_, _) => {
            action_tracker.aquaducts = action_tracker.aquaducts + 1;
            action_tracker.aquaducts_since_last_event = action_tracker.aquaducts_since_last_event
                + 1;
        },
        GameActions::Demolish(_) => {
            action_tracker.demolished = action_tracker.demolished + 1;
            action_tracker.demolished_since_last_event = action_tracker.demolished_since_last_event
                + 1;
        },
    }
    action_tracker.total = action_tracker.total + 1;
    action_tracker.total_since_last_event = action_tracker.total_since_last_event + 1;
    let mut pop = false;
    if level_events.0.len() > 0 {
        let trigger: LevelEventType = level_events.0[0].0;
        pop = match trigger {
            LevelEventType::AnyActionsComplete(x, since_last_event) => {
                x <= if since_last_event {
                    action_tracker.total_since_last_event
                } else {
                    action_tracker.total
                }
            },
            LevelEventType::BuiltNofType(x, content, since_last_event) => {
                x <= if since_last_event {
                    match content {
                        GameActionMode::Demolish => action_tracker.demolished_since_last_event,
                        GameActionMode::DigCanal => action_tracker.canals_since_last_event,
                        GameActionMode::ConstructLock => action_tracker.locks_since_last_event,
                        GameActionMode::BuildAquaduct => action_tracker.aquaducts_since_last_event,
                        GameActionMode::Idle => 0,
                    }
                } else {
                    match content {
                        GameActionMode::Demolish => action_tracker.demolished,
                        GameActionMode::DigCanal => action_tracker.canals,
                        GameActionMode::ConstructLock => action_tracker.locks,
                        GameActionMode::BuildAquaduct => action_tracker.aquaducts,
                        GameActionMode::Idle => 0,
                    }
                }
            },
            LevelEventType::GoalReached => false,
        };
    }
    if pop {
        level_events.0.pop_front()
    } else {
        None
    }
}

/// How a check of the goal came out.
#[derive(Debug, Clone)]
pub enum GoalCheck {
    /// No goal is set, or the goal is not reached yet.
    NotReached,
    /// The goal is reached and the level goes on with this event.
    Event(LevelEvent),
    /// The goal is reached and the level is complete.
    Complete,
}

impl Grid {
    /// Whether goal cell `i` is fed: it is not dry and a source feeds it.
    pub open spec fn goal_fed(self, i: int) -> bool {
        self.tiles[i].wetness != Wetness::Dry && self.sources[i] != WetnessSource::Unfed
    }

    /// Whether the goal is reached: there is a goal cell, every goal cell is
    /// fed, and one and the same source feeds them all.
    pub open spec fn goal_reached(self) -> bool {
        &&& exists|i: int| 0 <= i < self.tiles.len() && (#[trigger] self.tiles[i]).is_goal
        &&& forall|i: int|
            0 <= i < self.tiles.len() && (#[trigger] self.tiles[i]).is_goal ==> self.goal_fed(i)
        &&& forall|i: int, j: int|
            0 <= i < self.tiles.len() && 0 <= j < self.tiles.len() && (
            #[trigger] self.tiles[i]).is_goal && (#[trigger] self.tiles[j]).is_goal
                ==> self.sources[i] == self.sources[j]
    }

    /// The board with no goal left on it.
    pub open spec fn without_goals(self) -> Grid {
        Grid {
            tiles: Seq::new(self.tiles.len(), |i: int| Tile { is_goal: false, ..self.tiles[i] }),
            ..self
        }
    }
}

/// Whether the next pending event waits for the goal.
pub open spec fn next_waits_for_goal(pending: Seq<LevelEvent>) -> bool {
    pending.len() > 0 && pending[0].0 == LevelEventType::GoalReached
}

/// Checks the goal. Where it is not reached, nothing changes. Where it is
/// reached, every goal is cleared from the board, and the level goes on
/// with the next pending event if that event waits for the goal, or is
/// complete otherwise.
pub fn check_goals_for_sucess(board: &mut Board, level_events: &mut PendingLevelEvents) -> (check:
    GoalCheck)
    requires
        old(board)@.wf(),
    ensures
        final(board)@.wf(),
        !old(board)@.goal_reached() ==> check is NotReached && final(board)@ == old(board)@
            && final(level_events).0@ == old(level_events).0@,
        old(board)@.goal_reached() ==> final(board)@ == old(board)@.without_goals(),
        old(board)@.goal_reached() && next_waits_for_goal(old(level_events).0@) ==> check
            == GoalCheck::Event(old(level_events).0@[0]) && final(level_events).0@ == old(level_events).0@.subrange(1, old(level_events).0@.len() as int),
        old(board)@.goal_reached() && !next_waits_for_goal(old(level_events).0@) ==> check
            is Complete && final(level_events).0@ == old(level_events).0@,
{
    let n: usize = board.tiles.len();
    let mut found_goal = false;
    let mut min_wetness_source = WetnessSource::Unfed;
    let ghost mut first: int = 0;
    let mut i: usize = 0;
    while i < n
        invariant
            i <= n,
            n == board@.len(),
            board@.wf(),
            board@ == old(board)@,
            level_events.0@ == old(level_events).0@,
            found_goal <==> exists|k: int| 0 <= k < i && (#[trigger] board@.tiles[k]).is_goal,
            forall|k: int| 0 <= k < i && (#[trigger] board@.tiles[k]).is_goal ==> board@.goal_fed(k),
            found_goal ==> 0 <= first < i && board@.tiles[first].is_goal && min_wetness_source
                == board@.sources[first],
            forall|k: int|
                0 <= k < i && (#[trigger] board@.tiles[k]).is_goal ==> board@.sources[k]
                    == min_wetness_source,
        decreases n - i,
    {
        let tile: Tile = board.tiles[i];
        let source: WetnessSource = board.sources[i];
        if tile.is_goal {
            if tile.wetness == Wetness::Dry || source == WetnessSource::Unfed {
                assert(!board@.goal_fed(i as int));
                return GoalCheck::NotReached;
            }
            if !found_goal {
                min_wetness_source = source;
                proof {
                    first = i as int;
                }
            } else if min_wetness_source != source {
                assert(board@.tiles[first].is_goal && board@.tiles[i as int].is_goal);
                return GoalCheck::NotReached;
            }
            found_goal = true;
        }
        i += 1;
    }
    if !found_goal {
        return GoalCheck::NotReached;
    }
    proof {
        assert(board@.tiles[first].is_goal);
        assert(board@.goal_reached());
    }
    let ghost before = board@;
    let mut cleared: Vec<Tile> = Vec::new();
    let mut k: usize = 0;
    while k < n
        invariant
            k <= n,
            n == board@.len(),
            board@ == before,
            cleared@.len() == k,
            forall|j: int|
                0 <= j < k ==> (#[trigger] cleared@[j]) == (Tile {
                    is_goal: false,
                    ..before.tiles[j]
                }),
        decreases n - k,
    {
        let mut tile: Tile = board.tiles[k];
        if tile.is_goal {
            tile.is_goal = false;
        }
        cleared.push(tile);
        k += 1;
    }
    board.tiles = cleared;
    proof {
        assert(board@.tiles =~= before.without_goals().tiles);
        lemma_without_goals_wf(before);
    }
    let mut pop = false;
    if level_events.0.len() > 0 {
        let trigger: LevelEventType = level_events.0[0].0;
        if trigger == LevelEventType::GoalReached {
            pop = true;
        }
    }
    if pop {
        if let Some(event) = level_events.0.pop_front() {
            return GoalCheck::Event(event);
        }
    }
    GoalCheck::Complete
}

/// Clearing the goals leaves a well-formed board well formed.
pub proof fn lemma_without_goals_wf(grid: Grid)
    requires
        grid.wf(),
    ensures
        grid.without_goals().wf(),
{
    let after = grid.without_goals();
    assert(grid.same_layout(after));
    assert forall|i: int| 0 <= i < after.tiles.len() implies sound_wetness(
        #[trigger] after.tiles[i],
    ) by {
        assert(sound_wetness(grid.tiles[i]));
    }
    lemma_same_layout_wf(grid, after);
}

/// What a scripted event can change besides the counts: the board, the
/// tools, the phase, the text to show and the hint.
pub struct Scene {
    pub grid: Grid,
    pub tools: LevelTools,
    pub state: GameState,
    pub description: CurrentDescription,
    pub sidebar: SidebarText,
}

/// The cell as an effect leaves it; effects that are not about a cell leave
/// it alone. New contents leave the cell a water source where a river now
/// runs, dry otherwise.
pub open spec fn touched(tile: Tile, action: EventAction) -> Tile {
    match action {
        EventAction::SetNewGoal(_, _) => Tile { is_goal: true, ..tile },
        EventAction::AdjustCost(_, _, modifier) => Tile { cost_modifier: modifier, ..tile },
        EventAction::AdjustContents(_, _, contents) => Tile {
            contents,
            wetness: if contents == TileContents::River {
                Wetness::WaterSource
            } else {
                Wetness::Dry
            },
            ..tile
        },
        EventAction::SetHeight(_, _, h) => Tile { z: h, ..tile },
        _ => tile,
    }
}

/// The coordinates of the cell an effect is about, if it is about one.
pub open spec fn aimed_at(action: EventAction) -> Option<(usize, usize)> {
    match action {
        EventAction::SetNewGoal(x, y) => Some((x, y)),
        EventAction::AdjustCost(x, y, _) => Some((x, y)),
        EventAction::AdjustContents(x, y, _) => Some((x, y)),
        EventAction::SetHeight(x, y, _) => Some((x, y)),
        _ => None,
    }
}

impl Grid {
    /// The board after one effect: the cell it is about is changed, if the
    /// board has a cell there.
    pub open spec fn after_effect(self, action: EventAction) -> Grid {
        match self.lookup(aimed_at(action)) {
            Some(i) => self.with_tile(i as int, touched(self.tiles[i as int], action)),
            None => self,
        }
    }
}

impl Scene {
    /// The scene after one effect of an event.
    pub open spec fn after(self, action: EventAction) -> Scene {
        match action {
            EventAction::DisplayText { text, title, continue_button } => Scene {
                description: CurrentDescription { text: Some(text), title, continue_button },
                state: GameState::Description,
                ..self
            },
            EventAction::SetSidebar(text) => Scene { sidebar: SidebarText(text), ..self },
            EventAction::AdjustToolAccess(mode, enabled) => Scene {
                tools: self.tools.with_access(mode, enabled),
                ..self
            },
            _ => Scene { grid: self.grid.after_effect(action), ..self },
        }
    }

    /// The scene after the effects of an event, carried out in order.
    pub open spec fn after_all(self, actions: Seq<EventAction>) -> Scene
        decreases actions.len(),
    {
        if actions.len() == 0 {
            self
        } else {
            self.after_all(actions.drop_last()).after(actions.last())
        }
    }
}

/// One effect leaves a well-formed board well formed.
pub proof fn lemma_effect_wf(grid: Grid, action: EventAction)
    requires
        grid.wf(),
    ensures
        grid.after_effect(action).wf(),
{
    if let Some(i) = grid.lookup(aimed_at(action)) {
        let (x, y) = aimed_at(action)->0;
        assert(grid.child(x, y) == Some(i));
        let tile = grid.tiles[i as int];
        assert(sound_wetness(tile));
        lemma_with_tile_wf(grid, i as int, touched(tile, action));
    }
}

fn clone_text(text: &Option<String>) -> (r: Option<String>)
    ensures
        r == *text,
{
    match text {
        Some(s) => Some(s.clone()),
        None => None,
    }
}

/// Carries out one effect of a scripted event.
fn apply_effect(
    action: &EventAction,
    board: &mut Board,
    tools: &mut LevelTools,
    description: &mut CurrentDescription,
    state: &mut GameState,
    sidebar: &mut SidebarText,
)
    requires
        old(board)@.wf(),
    ensures
        final(board)@.wf(),
        (Scene {
            grid: final(board)@,
            tools: *final(tools),
            state: *final(state),
            description: *final(description),
            sidebar: *final(sidebar),
        }) == (Scene {
            grid: old(board)@,
            tools: *old(tools),
            state: *old(state),
            description: *old(description),
            sidebar: *old(sidebar),
        }).after(*action),
{
    proof {
        lemma_effect_wf(board@, *action);
    }
    let ghost before = board@;
    match action {
        EventAction::DisplayText { text, title, continue_button } => {
            description.text = Some(text.clone());
            description.title = clone_text(title);
            description.continue_button = clone_text(continue_button);
            *state = GameState::Description;
        },
        EventAction::SetNewGoal(x, y) => {
            if let Some(i) = board.child(*x, *y) {
                let tile: Tile = board.tiles[i];
                board.tiles[i] = Tile { is_goal: true, ..tile };
                assert(board@ == before.after_effect(*action));
            }
        },
        EventAction::AdjustCost(x, y, modifier) => {
            if let Some(i) = board.child(*x, *y) {
                let tile: Tile = board.tiles[i];
                board.tiles[i] = Tile { cost_modifier: *modifier, ..tile };
                assert(board@ == before.after_effect(*action));
            }
        },
        EventAction::AdjustContents(x, y, contents) => {
            if let Some(i) = board.child(*x, *y) {
                let tile: Tile = board.tiles[i];
                let wetness = match *contents {
                    TileContents::River => Wetness::WaterSource,
                    _ => Wetness::Dry,
                };
                board.tiles[i] = Tile { contents: *contents, wetness, ..tile };
                assert(board@ == before.after_effect(*action));
            }
        },
        EventAction::SetHeight(x, y, h) => {
            if let Some(i) = board.child(*x, *y) {
                let tile: Tile = board.tiles[i];
                board.tiles[i] = Tile { z: *h, ..tile };
                assert(board@ == before.after_effect(*action));
            }
        },
        EventAction::AdjustToolAccess(action_mode, action) => {
            match action_mode {
                GameActionMode::Idle => {},
                GameActionMode::DigCanal => tools.canal = *action,
                GameActionMode::ConstructLock => tools.lock = *action,
                GameActionMode::BuildAquaduct => tools.aquaduct = *action,
                GameActionMode::Demolish => tools.demolish = *action,
            }
        },
        EventAction::SetSidebar(text) => {
            sidebar.0 = clone_text(text);
        },
    }
}

/// Carries out the effects of a scripted event in order. An effect on a
/// cell that the board does not have changes nothing.
pub fn apply_effects(
    event: &LevelEvent,
    board: &mut Board,
    tools: &mut LevelTools,
    description: &mut CurrentDescription,
    state: &mut GameState,
    sidebar: &mut SidebarText,
)
    requires
        old(board)@.wf(),
    ensures
        final(board)@.wf(),
        (Scene {
            grid: final(board)@,
            tools: *final(tools),
            state: *final(state),
            description: *final(description),
            sidebar: *final(sidebar),
        }) == (Scene {
            grid: old(board)@,
            tools: *old(tools),
            state: *old(state),
            description: *old(description),
            sidebar: *old(sidebar),
        }).after_all(event.1@),
{
    let ghost start = Scene {
        grid: board@,
        tools: *tools,
        state: *state,
        description: *description,
        sidebar: *sidebar,
    };
    let count: usize = event.1.len();
    let mut k: usize = 0;
    while k < count
        invariant
            k <= count,
            count == event.1@.len(),
            board@.wf(),
            (Scene {
                grid: board@,
                tools: *tools,
                state: *state,
                description: *description,
                sidebar: *sidebar,
            }) == start.after_all(event.1@.take(k as int)),
        decreases count - k,
    {
        proof {
            assert(event.1@.take(k + 1).drop_last() =~= event.1@.take(k as int));
            assert(event.1@.take(k + 1).last() == event.1@[k as int]);
        }
        apply_effect(&event.1[k], board, tools, description, state, sidebar);
        k += 1;
    }
    assert(event.1@.take(count as int) =~= event.1@);
}

/// Carries out a scripted event: the counts since the last event start
/// again, and the effects of the event are applied in order.
pub fn process_level_event(
    event: &LevelEvent,
    board: &mut Board,
    action_tracker: &mut ActionTracker,
    tools: &mut LevelTools,
    description: &mut CurrentDescription,
    state: &mut GameState,
    sidebar: &mut SidebarText,
)
    requires
        old(board)@.wf(),
    ensures
        final(board)@.wf(),
        *final(action_tracker) == old(action_tracker).after_event(),
        (Scene {
            grid: final(board)@,
            tools: *final(tools),
            state: *final(state),
            description: *final(description),
            sidebar: *final(sidebar),
        }) == (Scene {
            grid: old(board)@,
            tools: *old(tools),
            state: *old(state),
            description: *old(description),
            sidebar: *old(sidebar),
        }).after_all(event.1@),
{
    action_tracker.total_since_last_event = 0;
    action_tracker.demolished_since_last_event = 0;
    action_tracker.aquaducts_since_last_event = 0;
    action_tracker.locks_since_last_event = 0;
    action_tracker.canals_since_last_event = 0;
    apply_effects(event, board, tools, description, state, sidebar);
}

} // verus!
