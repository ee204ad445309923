//! One level being played: the board and everything that goes with it, and
//! the steps of a frame.

use crate::actions::{
    LastAquaductHeight, apply_action, charge_of, let_through, request, request_fits, trigger_action,
};
use crate::board::{Board, Grid, TileEvent, build_board};
use crate::events::{
    ActionTracker, CurrentDescription, GoalCheck, Scene, SidebarText, check_goals_for_sucess,
    apply_effects, has_room, next_is_due, next_waits_for_goal, track_actions,
};
use crate::game_state::{GameActionMode, GameActions, GameResources, GameState};
use crate::level::{Level, LevelEvent, LevelTools, PendingLevelEvents};
use crate::simulation::{distances_fit, propogate_water_sources, run_water_simulation};
use std::collections::VecDeque;
use vstd::prelude::*;

verus! {

/// A level being played.
#[derive(Debug, Clone)]
pub struct Session {
    pub board: Board,
    pub resources: GameResources,
    pub tools: LevelTools,
    pub sidebar: SidebarText,
    pub description: CurrentDescription,
    pub tracker: ActionTracker,
    pub pending: PendingLevelEvents,
    pub state: GameState,
    pub mode: GameActionMode,
    pub only_dry: bool,
    pub last_aquaduct_height: LastAquaductHeight,
    /// The scripted events that have fired in this frame and are carried
    /// out at its end.
    pub fired: Vec<LevelEvent>,
}

/// The mathematical model of a session.
pub struct Play {
    pub grid: Grid,
    pub cost_so_far: usize,
    pub tools: LevelTools,
    pub sidebar: SidebarText,
    pub description: CurrentDescription,
    pub tracker: ActionTracker,
    pub pending: Seq<LevelEvent>,
    pub state: GameState,
    pub mode: GameActionMode,
    pub only_dry: bool,
    pub last_aquaduct_height: usize,
    pub fired: Seq<LevelEvent>,
}

impl View for Session {
    type V = Play;

    open spec fn view(&self) -> Play {
        Play {
            grid: self.board@,
            cost_so_far: self.resources.cost_so_far,
            tools: self.tools,
            sidebar: self.sidebar,
            description: self.description,
            tracker: self.tracker,
            pending: self.pending.0@,
            state: self.state,
            mode: self.mode,
            only_dry: self.only_dry,
            last_aquaduct_height: self.last_aquaduct_height.0,
            fired: self.fired@,
        }
    }
}

impl Play {
    /// Whether play is going on.
    pub open spec fn in_game(self) -> bool {
        self.state == GameState::InGame
    }

    /// The session with another tool selected; tools are selected only
    /// while play is going on.
    pub open spec fn with_mode(self, mode: GameActionMode) -> Play {
        if self.in_game() {
            Play { mode, ..self }
        } else {
            self
        }
    }

    /// Whether a request reaches the board: play is going on, and the
    /// request is of the tool selected, which the level allows.
    pub open spec fn admits(self, action: GameActions) -> bool {
        self.in_game() && let_through(self.mode, self.tools, action)
    }

    /// Whether the price of a request can be added to the money spent.
    pub open spec fn can_act(self, action: GameActions) -> bool {
        self.admits(action) ==> self.cost_so_far + self.grid.charge(action) <= usize::MAX
    }

    /// The session after a request: the board built upon and the price
    /// charged, where the request reaches the board and is carried out.
    pub open spec fn after_act(self, action: GameActions) -> Play {
        if self.admits(action) {
            Play {
                grid: self.grid.after_action(action),
                cost_so_far: (self.cost_so_far + self.grid.charge(action)) as usize,
                ..self
            }
        } else {
            self
        }
    }

    /// The session after the water has moved: one pass of wetness with the
    /// flag flipped, then one pass of sources.
    pub open spec fn after_water(self) -> Play {
        if self.in_game() {
            Play {
                grid: self.grid.after_wetness_pass(!self.only_dry).after_source_pass(),
                only_dry: !self.only_dry,
                ..self
            }
        } else {
            self
        }
    }

    /// The session after the effects of a scripted event have been carried
    /// out. Where the event shows a text, no tool stays selected.
    pub open spec fn after_effects(self, event: LevelEvent) -> Play {
        let scene = (Scene {
            grid: self.grid,
            tools: self.tools,
            state: self.state,
            description: self.description,
            sidebar: self.sidebar,
        }).after_all(event.1@);
        Play {
            grid: scene.grid,
            tools: scene.tools,
            state: scene.state,
            description: scene.description,
            sidebar: scene.sidebar,
            mode: if scene.state == GameState::Description {
                GameActionMode::Idle
            } else {
                self.mode
            },
            ..self
        }
    }

    /// The session after the effects of a run of events have been carried
    /// out in order.
    pub open spec fn after_effects_of(self, events: Seq<LevelEvent>) -> Play
        decreases events.len(),
    {
        if events.len() == 0 {
            self
        } else {
            self.after_effects_of(events.drop_last()).after_effects(events.last())
        }
    }

    /// The session after the events that have fired have been carried out,
    /// in the order in which they fired; none is left waiting.
    pub open spec fn after_events(self) -> Play {
        (Play { fired: Seq::empty(), ..self }).after_effects_of(self.fired)
    }

    /// The session after the next pending event has fired: it leaves the
    /// line of pending events and waits to be carried out, and the counts
    /// since the last event start again.
    pub open spec fn after_firing(self) -> Play {
        Play {
            pending: self.pending.subrange(1, self.pending.len() as int),
            fired: self.fired.push(self.pending[0]),
            tracker: self.tracker.after_event(),
            ..self
        }
    }

    /// The session after a request has been counted: the next pending
    /// event fires if the counts have reached what it waits for.
    pub open spec fn after_record(self, action: GameActions) -> Play {
        if self.in_game() {
            let counted = Play { tracker: self.tracker.recorded(action), ..self };
            if next_is_due(counted.tracker, self.pending) {
                counted.after_firing()
            } else {
                counted
            }
        } else {
            self
        }
    }

    /// The session after the goal has been checked. Where it is reached,
    /// the goals are cleared; the next pending event fires if it waits for
    /// the goal, and otherwise the level is complete, with no tool
    /// selected.
    pub open spec fn after_goal_check(self) -> Play {
        if self.in_game() && self.grid.goal_reached() {
            let cleared = Play { grid: self.grid.without_goals(), ..self };
            if next_waits_for_goal(self.pending) {
                cleared.after_firing()
            } else {
                Play { state: GameState::Complete, mode: GameActionMode::Idle, ..cleared }
            }
        } else {
            self
        }
    }

    /// The session after a run of requests has been carried out in order.
    pub open spec fn after_acts(self, actions: Seq<GameActions>) -> Play
        decreases actions.len(),
    {
        if actions.len() == 0 {
            self
        } else {
            self.after_acts(actions.drop_last()).after_act(actions.last())
        }
    }

    /// Whether the price of each request of a run can be added in turn.
    pub open spec fn can_acts(self, actions: Seq<GameActions>) -> bool
        decreases actions.len(),
    {
        actions.len() > 0 ==> self.can_acts(actions.drop_last()) && self.after_acts(
            actions.drop_last(),
        ).can_act(actions.last())
    }

    /// The session after a run of requests has been counted in order.
    pub open spec fn after_records(self, actions: Seq<GameActions>) -> Play
        decreases actions.len(),
    {
        if actions.len() == 0 {
            self
        } else {
            self.after_records(actions.drop_last()).after_record(actions.last())
        }
    }

    /// Whether a request can be counted.
    pub open spec fn can_record(self, action: GameActions) -> bool {
        self.in_game() ==> self.tracker.has_room(action)
    }

    /// Whether each request of a run can be counted in turn.
    pub open spec fn can_records(self, actions: Seq<GameActions>) -> bool
        decreases actions.len(),
    {
        actions.len() > 0 ==> self.can_records(actions.drop_last()) && self.after_records(
            actions.drop_last(),
        ).can_record(actions.last())
    }

    /// Whether the water can move.
    pub open spec fn can_advance(self) -> bool {
        self.in_game() ==> self.grid.distances_fit()
    }

    /// Whether a frame with these requests stays within the machine's
    /// integers.
    pub open spec fn can_tick(self, actions: Seq<GameActions>) -> bool {
        &&& self.can_acts(actions)
        &&& self.after_acts(actions).can_advance()
        &&& self.after_acts(actions).after_water().can_records(actions)
    }

    /// The session after one frame: the requests are carried out, the
    /// water moves, the requests are counted, the goal is checked, and the
    /// events that have fired are carried out, in this order.
    pub open spec fn after_tick(self, actions: Seq<GameActions>) -> Play {
        self.after_acts(actions).after_water().after_records(
            actions,
        ).after_goal_check().after_events()
    }

    /// The session after the player has read the text shown: play goes on.
    pub open spec fn after_continue(self) -> Play {
        if self.state == GameState::Description {
            Play { state: GameState::InGame, ..self }
        } else {
            self
        }
    }
}

/// Lines up the scripted events of a level, first one first.
pub fn setup_level_events(events: Vec<LevelEvent>) -> (level_events: PendingLevelEvents)
    ensures
        level_events.0@ == events@,
{
    let mut events = events;
    let ghost all = events@;
    let mut pending: VecDeque<LevelEvent> = VecDeque::new();
    while events.len() > 0
        invariant
            events@.len() <= all.len(),
            events@ == all.subrange(0, events@.len() as int),
            pending@ == all.subrange(events@.len() as int, all.len() as int),
        decreases events@.len(),
    {
        if let Some(event) = events.pop() {
            pending.push_front(event);
            assert(pending@ =~= all.subrange(events@.len() as int, all.len() as int));
            assert(events@ =~= all.subrange(0, events@.len() as int));
        }
    }
    assert(pending@ =~= all);
    PendingLevelEvents(pending)
}

impl Session {
    /// Starts a level: the board is built, the scripted events are lined
    /// up, nothing has been spent or counted and no tool is selected. Play
    /// begins at once, unless the level has a description: that is shown
    /// first, under the level's title, with a button that says "Play".
    pub fn new(level: Level) -> (session: Session)
        ensures
            session@.grid.wf(),
            session@.grid.matches_level(&level),
            session@.pending == level.events@,
            session@.tools == level.tools,
            session@.sidebar.0 == level.sidebar_text,
            session@.cost_so_far == 0,
            session@.tracker == ActionTracker::fresh(),
            session@.mode == GameActionMode::Idle,
            !session@.only_dry,
            session@.last_aquaduct_height == 0,
            session@.fired.len() == 0,
            level.initial_description is None ==> session@.state == GameState::InGame
                && session@.description.title is None && session@.description.text is None
                && session@.description.continue_button is None,
            level.initial_description is Some ==> session@.state == GameState::Description
                && session@.description.title == level.title && session@.description.text
                == level.initial_description && (session@.description.continue_button matches Some(
                label,
            ) && label@ == "Play"@),
    {
        let board = build_board(&level);
        let Level { tiles: _, title, initial_description, sidebar_text, width: _, height: _, events, tools } =
            level;
        let pending = setup_level_events(events);
        let (state, description) = match initial_description {
            None => (
                GameState::InGame,
                CurrentDescription { title: None, text: None, continue_button: None },
            ),
            Some(text) => (
                GameState::Description,
                CurrentDescription {
                    title,
                    text: Some(text),
                    continue_button: Some("Play".to_string()),
                },
            ),
        };
        Session {
            board,
            resources: GameResources { cost_so_far: 0 },
            tools,
            sidebar: SidebarText(sidebar_text),
            description,
            tracker: ActionTracker::default(),
            pending,
            state,
            mode: GameActionMode::Idle,
            only_dry: false,
            last_aquaduct_height: LastAquaductHeight(0),
            fired: Vec::new(),
        }
    }

    /// Selects a tool.
    pub fn select_mode(&mut self, mode: GameActionMode)
        ensures
            final(self)@ == old(self)@.with_mode(mode),
    {
        if self.state == GameState::InGame {
            self.mode = mode;
        }
    }

    /// Goes on with play after a text has been shown.
    pub fn continue_play(&mut self)
        ensures
            final(self)@ == old(self)@.after_continue(),
    {
        if self.state == GameState::Description {
            self.state = GameState::InGame;
        }
    }

    /// Whether `trigger` can take this event: the aqueduct height that it
    /// would leave remembered fits the machine's integers.
    pub fn can_trigger(&self, event: &TileEvent, pressed: bool) -> (can: bool)
        ensures
            can == (self@.in_game() ==> request(
                self@.mode,
                self@.tools,
                *event,
                pressed,
                self@.last_aquaduct_height,
            ).1 <= usize::MAX),
    {
        self.state != GameState::InGame || request_fits(
            self.mode,
            &self.tools,
            event,
            pressed,
            &self.last_aquaduct_height,
        )
    }

    /// Whether `act` can take this request: its price can be added to the
    /// money spent.
    pub fn can_act(&self, action: &GameActions) -> (can: bool)
        requires
            self@.grid.wf(),
        ensures
            can == self@.can_act(*action),
    {
        if self.state != GameState::InGame {
            return true;
        }
        let allowed = match self.mode {
            GameActionMode::Idle => false,
            GameActionMode::DigCanal => self.tools.canal,
            GameActionMode::ConstructLock => self.tools.lock,
            GameActionMode::BuildAquaduct => self.tools.aquaduct,
            GameActionMode::Demolish => self.tools.demolish,
        };
        let of_mode = match *action {
            GameActions::DigCanal(_) => self.mode == GameActionMode::DigCanal,
            GameActions::ConstructLock(_) => self.mode == GameActionMode::ConstructLock,
            GameActions::BuildAquaduct(_, _) => self.mode == GameActionMode::BuildAquaduct,
            GameActions::Demolish(_) => self.mode == GameActionMode::Demolish,
        };
        if !(allowed && of_mode) {
            return true;
        }
        match charge_of(&self.board, action) {
            Some(cost) => self.resources.cost_so_far.checked_add(cost).is_some(),
            None => false,
        }
    }

    /// Whether `advance_water` can run: no cell is wet at the greatest
    /// distance the machine can count.
    pub fn can_advance(&self) -> (can: bool)
        ensures
            can == self@.can_advance(),
    {
        self.state != GameState::InGame || distances_fit(&self.board)
    }

    /// Whether `record` can take this request: it can still be counted.
    pub fn can_record(&self, action: &GameActions) -> (can: bool)
        ensures
            can == self@.can_record(*action),
    {
        self.state != GameState::InGame || has_room(&self.tracker, action)
    }

    /// Turns an event of the pointer into a request with the tool that is
    /// selected; none is made unless play is going on.
    pub fn trigger(&mut self, event: &TileEvent, pressed: bool) -> (r: Option<GameActions>)
        requires
            old(self)@.in_game() ==> request(
                old(self)@.mode,
                old(self)@.tools,
                *event,
                pressed,
                old(self)@.last_aquaduct_height,
            ).1 <= usize::MAX,
        ensures
            old(self)@.in_game() ==> r == request(
                old(self)@.mode,
                old(self)@.tools,
                *event,
                pressed,
                old(self)@.last_aquaduct_height,
            ).0 && final(self)@ == (Play {
                last_aquaduct_height: request(
                    old(self)@.mode,
                    old(self)@.tools,
                    *event,
                    pressed,
                    old(self)@.last_aquaduct_height,
                ).1 as usize,
                ..old(self)@
            }),
            !old(self)@.in_game() ==> r is None && final(self)@ == old(self)@,
    {
        if self.state == GameState::InGame {
            trigger_action(self.mode, &self.tools, event, pressed, &mut self.last_aquaduct_height)
        } else {
            None
        }
    }

    /// Carries out a request on the board.
    pub fn act(&mut self, action: &GameActions)
        requires
            old(self)@.grid.wf(),
            old(self)@.can_act(*action),
        ensures
            final(self)@ == old(self)@.after_act(*action),
            final(self)@.grid.wf(),
    {
        if self.state == GameState::InGame {
            apply_action(self.mode, &self.tools, action, &mut self.board, &mut self.resources);
        }
    }

    /// Lets the water move: one pass of wetness, then one pass of sources.
    pub fn advance_water(&mut self)
        requires
            old(self)@.grid.wf(),
            old(self)@.can_advance(),
        ensures
            final(self)@ == old(self)@.after_water(),
            final(self)@.grid.wf(),
    {
        if self.state == GameState::InGame {
            run_water_simulation(&mut self.board, &mut self.only_dry);
            propogate_water_sources(&mut self.board);
        }
    }

    /// Carries out the effects of a scripted event.
    fn carry_out(&mut self, event: &LevelEvent)
        requires
            old(self)@.grid.wf(),
        ensures
            final(self)@ == old(self)@.after_effects(*event),
            final(self)@.grid.wf(),
    {
        apply_effects(
            event,
            &mut self.board,
            &mut self.tools,
            &mut self.description,
            &mut self.state,
            &mut self.sidebar,
        );
        if self.state == GameState::Description {
            self.mode = GameActionMode::Idle;
        }
    }

    /// Lets the next pending event wait to be carried out, and starts the
    /// counts since the last event again.
    fn fire(&mut self, event: LevelEvent)
        ensures
            final(self)@ == (Play {
                fired: old(self)@.fired.push(event),
                tracker: old(self)@.tracker.after_event(),
                ..old(self)@
            }),
    {
        self.tracker.total_since_last_event = 0;
        self.tracker.demolished_since_last_event = 0;
        self.tracker.aquaducts_since_last_event = 0;
        self.tracker.locks_since_last_event = 0;
        self.tracker.canals_since_last_event = 0;
        self.fired.push(event);
    }

    /// Counts a request; the scripted event that this makes due, if any,
    /// fires and waits to be carried out.
    pub fn record(&mut self, action: &GameActions)
        requires
            old(self)@.can_record(*action),
        ensures
            final(self)@ == old(self)@.after_record(*action),
    {
        if self.state == GameState::InGame {
            if let Some(event) = track_actions(action, &mut self.tracker, &mut self.pending) {
                self.fire(event);
            }
        }
    }

    /// Carries out the events that have fired, in the order in which they
    /// fired.
    pub fn carry_out_events(&mut self)
        requires
            old(self)@.grid.wf(),
        ensures
            final(self)@ == old(self)@.after_events(),
            final(self)@.grid.wf(),
    {
        let mut fired: Vec<LevelEvent> = Vec::new();
        core::mem::swap(&mut fired, &mut self.fired);
        let ghost start = self@;
        let count: usize = fired.len();
        let mut k: usize = 0;
        while k < count
            invariant
                k <= count,
                count == fired@.len(),
                self@.grid.wf(),
                self@ == start.after_effects_of(fired@.take(k as int)),
            decreases count - k,
        {
            proof {
                assert(fired@.take(k + 1).drop_last() =~= fired@.take(k as int));
                assert(fired@.take(k + 1).last() == fired@[k as int]);
            }
            self.carry_out(&fired[k]);
            k += 1;
        }
        proof {
            assert(fired@.take(count as int) =~= fired@);
            assert(start.fired =~= Seq::<LevelEvent>::empty());
            assert(start == (Play { fired: Seq::empty(), ..old(self)@ }));
        }
    }

    /// Runs one frame: the requests are carried out, the water moves, the
    /// requests are counted, the goal is checked, and the events that have
    /// fired are carried out, in this order.
    pub fn tick(&mut self, actions: &Vec<GameActions>)
        requires
            old(self)@.grid.wf(),
            old(self)@.can_tick(actions@),
        ensures
            final(self)@ == old(self)@.after_tick(actions@),
            final(self)@.grid.wf(),
    {
        let count: usize = actions.len();
        let mut k: usize = 0;
        while k < count
            invariant
                k <= count,
                count == actions@.len(),
                self@.grid.wf(),
                old(self)@.can_acts(actions@),
                self@ == old(self)@.after_acts(actions@.take(k as int)),
            decreases count - k,
        {
            proof {
                lemma_can_acts_prefix(old(self)@, actions@, k + 1);
                assert(actions@.take(k + 1).drop_last() =~= actions@.take(k as int));
                assert(actions@.take(k + 1).last() == actions@[k as int]);
            }
            self.act(&actions[k]);
            k += 1;
        }
        assert(actions@.take(count as int) =~= actions@);
        self.advance_water();
        let ghost watered = self@;
        let mut k: usize = 0;
        while k < count
            invariant
                k <= count,
                count == actions@.len(),
                self@.grid.wf(),
                watered.can_records(actions@),
                self@ == watered.after_records(actions@.take(k as int)),
            decreases count - k,
        {
            proof {
                lemma_can_records_prefix(watered, actions@, k + 1);
                assert(actions@.take(k + 1).drop_last() =~= actions@.take(k as int));
                assert(actions@.take(k + 1).last() == actions@[k as int]);
            }
            self.record(&actions[k]);
            k += 1;
        }
        assert(actions@.take(count as int) =~= actions@);
        self.check_goal();
        self.carry_out_events();
    }

    /// Checks the goal. Where it is reached, the event that waits for it
    /// fires and waits to be carried out, or the level is complete.
    pub fn check_goal(&mut self)
        requires
            old(self)@.grid.wf(),
        ensures
            final(self)@ == old(self)@.after_goal_check(),
            final(self)@.grid.wf(),
    {
        if self.state == GameState::InGame {
            match check_goals_for_sucess(&mut self.board, &mut self.pending) {
                GoalCheck::NotReached => {},
                GoalCheck::Event(event) => {
                    self.fire(event);
                },
                GoalCheck::Complete => {
                    self.state = GameState::Complete;
                    self.mode = GameActionMode::Idle;
                },
            }
        }
    }
}

/// Where the prices of a run of requests can be added in turn, so can
/// those of every run it begins with.
pub proof fn lemma_can_acts_prefix(play: Play, actions: Seq<GameActions>, k: int)
    requires
        play.can_acts(actions),
        0 <= k <= actions.len(),
    ensures
        play.can_acts(actions.take(k)),
    decreases actions.len(),
{
    if k == actions.len() {
        assert(actions.take(k) =~= actions);
    } else {
        lemma_can_acts_prefix(play, actions.drop_last(), k);
        assert(actions.drop_last().take(k) =~= actions.take(k));
    }
}

/// Where the requests of a run can be counted in turn, so can those of
/// every run it begins with.
pub proof fn lemma_can_records_prefix(play: Play, actions: Seq<GameActions>, k: int)
    requires
        play.can_records(actions),
        0 <= k <= actions.len(),
    ensures
        play.can_records(actions.take(k)),
    decreases actions.len(),
{
    if k == actions.len() {
        assert(actions.take(k) =~= actions);
    } else {
        lemma_can_records_prefix(play, actions.drop_last(), k);
        assert(actions.drop_last().take(k) =~= actions.take(k));
    }
}

} // verus!
