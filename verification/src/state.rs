//! The screen state machine.
//!
//! Exactly one screen is active at a time. Transitions are explicit:
//! a trigger observed during a tick requests the next screen, the last
//! request of a tick wins, and the request takes effect atomically at the
//! end of the tick — the previous screen's entities are torn down before
//! the next screen's are set up.

use vstd::prelude::*;

verus! {

/// The screens of the game. The process starts on the title screen.
#[derive(Clone, Copy, PartialEq, Eq, Structural, Debug)]
pub enum GameState {
    TitleScreen,
    LevelSelection,
    Playing,
    GameOver,
    VictoryScreen,
    LeaderboardScreen,
}

/// The level identifier read once on entering play.
#[derive(Clone, Copy, PartialEq, Eq, Structural, Debug)]
pub struct SelectedLevel {
    pub level_id: u64,
}

/// A trigger that may request a screen transition: a menu action, an
/// escape press during play, or a collision outcome.
#[derive(Clone, Copy, PartialEq, Eq, Structural, Debug)]
pub enum GameEvent {
    /// The start action on the title screen.
    Start,
    /// A level button on the selection screen.
    LevelChosen(u64),
    /// The escape action during play.
    ExitLevel,
    /// A lethal contact during play.
    LethalCollision,
    /// A finish-line contact during play.
    FinishCollision,
    /// Replay the same level after game over or victory.
    Restart,
    /// Back to the title screen after game over or victory.
    ReturnToMenu,
    /// Play the next level after victory; the selected level is
    /// incremented with no check against the number of available levels.
    NextLevel,
    /// Show the leaderboard after victory.
    Leaderboard,
    /// Leave the leaderboard or the level selection for the title screen.
    Back,
}

/// The transition table: for a screen, a selected level and a trigger,
/// the requested next screen and the new selected level, or `None` where
/// the trigger means nothing on that screen.
pub open spec fn event_transition(state: GameState, selected: int, ev: GameEvent) -> Option<
    (GameState, int),
> {
    match (state, ev) {
        (GameState::TitleScreen, GameEvent::Start) => Some((GameState::LevelSelection, selected)),
        (GameState::LevelSelection, GameEvent::LevelChosen(id)) => Some(
            (GameState::Playing, id as int),
        ),
        (GameState::LevelSelection, GameEvent::Back) => Some((GameState::TitleScreen, selected)),
        (GameState::Playing, GameEvent::ExitLevel) => Some((GameState::LevelSelection, selected)),
        (GameState::Playing, GameEvent::LethalCollision) => Some((GameState::GameOver, selected)),
        (GameState::Playing, GameEvent::FinishCollision) => Some(
            (GameState::VictoryScreen, selected),
        ),
        (GameState::GameOver, GameEvent::Restart) => Some((GameState::Playing, selected)),
        (GameState::GameOver, GameEvent::ReturnToMenu) => Some((GameState::TitleScreen, selected)),
        (GameState::VictoryScreen, GameEvent::Restart) => Some((GameState::Playing, selected)),
        (GameState::VictoryScreen, GameEvent::ReturnToMenu) => Some(
            (GameState::TitleScreen, selected),
        ),
        (GameState::VictoryScreen, GameEvent::NextLevel) => Some(
            (GameState::Playing, selected + 1),
        ),
        (GameState::VictoryScreen, GameEvent::Leaderboard) => Some(
            (GameState::LeaderboardScreen, selected),
        ),
        (GameState::LeaderboardScreen, GameEvent::Back) => Some(
            (GameState::TitleScreen, selected),
        ),
        _ => None,
    }
}

/// The state machine: the active screen, the transition requested during
/// the current tick (if any), and the selected level.
pub struct GameFlow {
    pub current: GameState,
    pub pending: Option<GameState>,
    pub selected: SelectedLevel,
}

impl GameFlow {
    /// The machine at process start: the title screen, nothing requested.
    pub fn new() -> (flow: GameFlow)
        ensures
            flow.current is TitleScreen,
            flow.pending is None,
            flow.selected.level_id == 0,
    {
        GameFlow {
            current: GameState::TitleScreen,
            pending: None,
            selected: SelectedLevel { level_id: 0 },
        }
    }

    /// Requests a transition to `next` at the end of the current tick.
    /// A later request within the same tick overwrites an earlier one:
    /// the last write wins.
    pub fn request_transition(&mut self, next: GameState)
        ensures
            final(self).current == old(self).current,
            final(self).selected == old(self).selected,
            final(self).pending == Some(next),
    {
        self.pending = Some(next);
    }

    /// Feeds one trigger through the transition table: where the table
    /// names a target for the active screen, the transition is requested
    /// (last write wins) and the selected level is updated; any other
    /// trigger is ignored.
    pub fn handle_event(&mut self, ev: GameEvent)
        requires
            ev is NextLevel ==> old(self).selected.level_id < u64::MAX,
        ensures
            final(self).current == old(self).current,
            match event_transition(old(self).current, old(self).selected.level_id as int, ev) {
                Some(t) => final(self).pending == Some(t.0) && final(self).selected.level_id
                    == t.1,
                None => final(self).pending == old(self).pending && final(self).selected == old(
                    self,
                ).selected,
            },
    {
        match (self.current, ev) {
            (GameState::TitleScreen, GameEvent::Start) => {
                self.request_transition(GameState::LevelSelection);
            },
            (GameState::LevelSelection, GameEvent::LevelChosen(id)) => {
                self.selected.level_id = id;
                self.request_transition(GameState::Playing);
            },
            (GameState::LevelSelection, GameEvent::Back) => {
                self.request_transition(GameState::TitleScreen);
            },
            (GameState::Playing, GameEvent::ExitLevel) => {
                self.request_transition(GameState::LevelSelection);
            },
            (GameState::Playing, GameEvent::LethalCollision) => {
                self.request_transition(GameState::GameOver);
            },
            (GameState::Playing, GameEvent::FinishCollision) => {
                self.request_transition(GameState::VictoryScreen);
            },
            (GameState::GameOver, GameEvent::Restart) => {
                self.request_transition(GameState::Playing);
            },
            (GameState::GameOver, GameEvent::ReturnToMenu) => {
                self.request_transition(GameState::TitleScreen);
            },
            (GameState::VictoryScreen, GameEvent::Restart) => {
                self.request_transition(GameState::Playing);
            },
            (GameState::VictoryScreen, GameEvent::ReturnToMenu) => {
                self.request_transition(GameState::TitleScreen);
            },
            (GameState::VictoryScreen, GameEvent::NextLevel) => {
                self.selected.level_id = self.selected.level_id + 1;
                self.request_transition(GameState::Playing);
            },
            (GameState::VictoryScreen, GameEvent::Leaderboard) => {
                self.request_transition(GameState::LeaderboardScreen);
            },
            (GameState::LeaderboardScreen, GameEvent::Back) => {
                self.request_transition(GameState::TitleScreen);
            },
            _ => {},
        }
    }

    /// Applies the transition requested during this tick, if any, and
    /// clears the request. Returns the pair (previous screen, next
    /// screen) so that the caller tears down everything the previous
    /// screen owns before setting up the next one; `None` means the
    /// screen did not change and nothing is to be done.
    pub fn end_tick(&mut self) -> (t: Option<(GameState, GameState)>)
        ensures
            final(self).selected == old(self).selected,
            final(self).pending is None,
            match old(self).pending {
                Some(next) => t == Some((old(self).current, next)) && final(self).current == next,
                None => t is None && final(self).current == old(self).current,
            },
    {
        match self.pending {
            Some(next) => {
                let prev = self.current;
                self.current = next;
                self.pending = None;
                Some((prev, next))
            },
            None => None,
        }
    }
}

/// Requests the return to level selection when the escape action fires
/// during play; outside play the escape action is dead.
pub fn exit_level_system(flow: &mut GameFlow, escape_pressed: bool)
    ensures
        final(flow).current == old(flow).current,
        final(flow).selected == old(flow).selected,
        final(flow).pending == if escape_pressed && old(flow).current is Playing {
            Some(GameState::LevelSelection)
        } else {
            old(flow).pending
        },
{
    if escape_pressed && flow.current == GameState::Playing {
        flow.request_transition(GameState::LevelSelection);
    }
}

} // verus!
