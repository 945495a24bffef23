//! The collision classifier: the game-logic meaning of contact events.
//!
//! The physics engine reports which pairs of bodies began or stopped
//! touching each tick. Only contact starts between the player and an
//! obstacle mean anything: a finish-line obstacle always means victory;
//! a non-lethal obstacle touched from above (the player's bottom edge
//! above the obstacle's top edge) is a standable landing and means
//! nothing; every other obstacle contact is lethal. Without a live
//! player, contact handling is skipped for the tick.

use vstd::prelude::*;

use crate::state::{GameFlow, GameState};
use crate::units::PLAYER_HALF_EXTENT;

verus! {

/// A contact event from the physics engine: the unordered pair of bodies
/// `a` and `b` began (`started`) or stopped touching this tick.
#[derive(Clone, Copy, PartialEq, Eq, Structural, Debug)]
pub struct ContactEvent {
    pub started: bool,
    pub a: u64,
    pub b: u64,
}

/// The live player as the classifier sees it: its body identity and its
/// y-coordinate in milli-units.
#[derive(Clone, Copy, PartialEq, Eq, Structural, Debug)]
pub struct PlayerRef {
    pub entity: u64,
    pub y: i64,
}

/// An obstacle as the classifier sees it: its body identity, its
/// y-coordinate and half-height in milli-units, and its markers.
#[derive(Clone, Copy, PartialEq, Eq, Structural, Debug)]
pub struct ObstacleRef {
    pub entity: u64,
    pub y: i64,
    pub half_height: i64,
    pub non_lethal: bool,
    pub is_finish: bool,
}

/// What one contact event means for the game.
#[derive(Clone, Copy, PartialEq, Eq, Structural, Debug)]
pub enum ContactOutcome {
    /// Not a contact start between the player and an obstacle, or no
    /// live player: nothing happens.
    Skipped,
    /// A standable landing on a non-lethal obstacle: nothing happens.
    Landed,
    /// A lethal contact: the run is over.
    Fail,
    /// A finish-line contact: the level is complete.
    Finish,
}

/// The top-collision predicate: the player's bottom edge is strictly
/// above the obstacle's top edge, so the player landed on the obstacle
/// rather than striking its side or underside.
pub open spec fn is_top_collision_spec(
    player_y: i64,
    player_half_height: i64,
    obstacle_y: i64,
    obstacle_half_height: i64,
) -> bool {
    player_y - player_half_height > obstacle_y + obstacle_half_height
}

/// Executable top-collision check, exact for all coordinates.
pub fn is_top_collision(
    player_y: i64,
    player_half_height: i64,
    obstacle_y: i64,
    obstacle_half_height: i64,
) -> (r: bool)
    ensures
        r == is_top_collision_spec(player_y, player_half_height, obstacle_y, obstacle_half_height),
{
    (player_y as i128) - (player_half_height as i128) > (obstacle_y as i128) + (
    obstacle_half_height as i128)
}

/// Monotonicity of the top-collision predicate in the vertical gap: with
/// the obstacle fixed, raising the player preserves it, and it holds
/// exactly above the single threshold where the player's bottom edge
/// passes the obstacle's top edge.
pub proof fn lemma_top_collision_monotonic(
    player_y1: i64,
    player_y2: i64,
    player_half_height: i64,
    obstacle_y: i64,
    obstacle_half_height: i64,
)
    requires
        player_y1 <= player_y2,
    ensures
        is_top_collision_spec(player_y1, player_half_height, obstacle_y, obstacle_half_height)
            ==> is_top_collision_spec(
            player_y2,
            player_half_height,
            obstacle_y,
            obstacle_half_height,
        ),
        is_top_collision_spec(player_y1, player_half_height, obstacle_y, obstacle_half_height)
            <==> player_y1 - player_half_height > obstacle_y + obstacle_half_height,
{
}

/// The first obstacle with body identity `id` at or after position `i`.
pub open spec fn find_obstacle_from(obstacles: Seq<ObstacleRef>, id: u64, i: int) -> Option<
    ObstacleRef,
>
    decreases obstacles.len() - i,
{
    if i < 0 || i >= obstacles.len() {
        None
    } else if obstacles[i].entity == id {
        Some(obstacles[i])
    } else {
        find_obstacle_from(obstacles, id, i + 1)
    }
}

/// The obstacle with body identity `id`, if any.
pub open spec fn find_obstacle_spec(obstacles: Seq<ObstacleRef>, id: u64) -> Option<ObstacleRef> {
    find_obstacle_from(obstacles, id, 0)
}

/// Looks an obstacle up by its body identity.
fn find_obstacle(obstacles: &Vec<ObstacleRef>, id: u64) -> (r: Option<ObstacleRef>)
    ensures
        r == find_obstacle_spec(obstacles@, id),
{
    let mut i: usize = 0;
    while i < obstacles.len()
        invariant
            i <= obstacles@.len(),
            find_obstacle_spec(obstacles@, id) == find_obstacle_from(obstacles@, id, i as int),
        decreases obstacles@.len() - i,
    {
        if obstacles[i].entity == id {
            return Some(obstacles[i]);
        }
        i += 1;
    }
    None
}

/// The obstacle side of a contact pair whose other side is the player,
/// if the pair is a player-obstacle pair.
pub open spec fn event_obstacle(
    player: PlayerRef,
    obstacles: Seq<ObstacleRef>,
    ev: ContactEvent,
) -> Option<ObstacleRef> {
    if ev.a == player.entity {
        find_obstacle_spec(obstacles, ev.b)
    } else if ev.b == player.entity {
        find_obstacle_spec(obstacles, ev.a)
    } else {
        None
    }
}

/// The meaning of one contact event: contact stops, pairs that are not
/// player-obstacle pairs, and every event of a tick without a live
/// player are skipped; a finish-line obstacle wins over every marker;
/// a non-lethal obstacle touched from above is a landing; everything
/// else is lethal.
pub open spec fn classify_spec(
    player: Option<PlayerRef>,
    obstacles: Seq<ObstacleRef>,
    ev: ContactEvent,
) -> ContactOutcome {
    if !ev.started {
        ContactOutcome::Skipped
    } else {
        match player {
            None => ContactOutcome::Skipped,
            Some(p) => match event_obstacle(p, obstacles, ev) {
                None => ContactOutcome::Skipped,
                Some(o) => if o.is_finish {
                    ContactOutcome::Finish
                } else if o.non_lethal && is_top_collision_spec(
                    p.y,
                    PLAYER_HALF_EXTENT,
                    o.y,
                    o.half_height,
                ) {
                    ContactOutcome::Landed
                } else {
                    ContactOutcome::Fail
                },
            },
        }
    }
}

/// Classifies one contact event against the tick's snapshot of the
/// player and the obstacles.
pub fn classify_contact(
    player: Option<PlayerRef>,
    obstacles: &Vec<ObstacleRef>,
    ev: ContactEvent,
) -> (outcome: ContactOutcome)
    ensures
        outcome == classify_spec(player, obstacles@, ev),
{
    if !ev.started {
        return ContactOutcome::Skipped;
    }
    let p = match player {
        None => {
            return ContactOutcome::Skipped;
        },
        Some(p) => p,
    };
    let obstacle = if ev.a == p.entity {
        find_obstacle(obstacles, ev.b)
    } else if ev.b == p.entity {
        find_obstacle(obstacles, ev.a)
    } else {
        None
    };
    match obstacle {
        None => ContactOutcome::Skipped,
        Some(o) => {
            if o.is_finish {
                ContactOutcome::Finish
            } else if o.non_lethal && is_top_collision(p.y, PLAYER_HALF_EXTENT, o.y, o.half_height) {
                ContactOutcome::Landed
            } else {
                ContactOutcome::Fail
            }
        },
    }
}

/// The transition an outcome asks of the state machine, if any.
pub open spec fn outcome_request(outcome: ContactOutcome) -> Option<GameState> {
    match outcome {
        ContactOutcome::Finish => Some(GameState::VictoryScreen),
        ContactOutcome::Fail => Some(GameState::GameOver),
        _ => None,
    }
}

/// The transition left requested after the events from position `i` on,
/// starting from the request `cur`: each event's request, if any,
/// overwrites the one before it.
pub open spec fn requests_from(
    player: Option<PlayerRef>,
    obstacles: Seq<ObstacleRef>,
    events: Seq<ContactEvent>,
    i: int,
    cur: Option<GameState>,
) -> Option<GameState>
    decreases events.len() - i,
{
    if i < 0 || i >= events.len() {
        cur
    } else {
        let next = match outcome_request(classify_spec(player, obstacles, events[i])) {
            Some(s) => Some(s),
            None => cur,
        };
        requests_from(player, obstacles, events, i + 1, next)
    }
}

/// The transition left requested after a whole tick's events, if any:
/// the last event that asks for one wins.
pub open spec fn collision_request(
    player: Option<PlayerRef>,
    obstacles: Seq<ObstacleRef>,
    events: Seq<ContactEvent>,
) -> Option<GameState> {
    requests_from(player, obstacles, events, 0, None)
}

/// One classifier tick: consumes the tick's contact events in order and
/// requests the transition the last meaningful one asks for — victory
/// for a finish-line contact, game over for a lethal one. Runs only
/// while playing; on any other screen the events mean nothing.
pub fn collision_event_system(
    events: &Vec<ContactEvent>,
    player: Option<PlayerRef>,
    obstacles: &Vec<ObstacleRef>,
    flow: &mut GameFlow,
)
    ensures
        final(flow).current == old(flow).current,
        final(flow).selected == old(flow).selected,
        final(flow).pending == if old(flow).current is Playing {
            match collision_request(player, obstacles@, events@) {
                Some(s) => Some(s),
                None => old(flow).pending,
            }
        } else {
            old(flow).pending
        },
{
    if flow.current != GameState::Playing {
        return ;
    }
    let ghost mut acc: Option<GameState> = None;
    let mut i: usize = 0;
    while i < events.len()
        invariant
            i <= events@.len(),
            flow.current == old(flow).current,
            flow.selected == old(flow).selected,
            collision_request(player, obstacles@, events@) == requests_from(
                player,
                obstacles@,
                events@,
                i as int,
                acc,
            ),
            flow.pending == match acc {
                Some(s) => Some(s),
                None => old(flow).pending,
            },
        decreases events@.len() - i,
    {
        let outcome = classify_contact(player, obstacles, events[i]);
        match outcome {
            ContactOutcome::Finish => {
                flow.request_transition(GameState::VictoryScreen);
                proof {
                    acc = Some(GameState::VictoryScreen);
                }
            },
            ContactOutcome::Fail => {
                flow.request_transition(GameState::GameOver);
                proof {
                    acc = Some(GameState::GameOver);
                }
            },
            _ => {},
        }
        i += 1;
    }
}

} // verus!
