//! The level store: the level data model, validation of a decoded level
//! document, and the spawn plan for entering play.
//!
//! A level document arrives already decoded into plain values (the caller
//! reads and decodes the named resource). Validation checks the one
//! structural invariant — every obstacle has exactly 4 vertices — and
//! applies the defaults for the optional fields. A missing document and a
//! malformed one are rejected the same way: the level counts as absent.

use vstd::prelude::*;

use crate::units::{Vec2i, PLAYER_HALF_EXTENT, SPAWN_Y, START_X};

verus! {

/// An RGB color, each channel in thousandths (0 to 1000).
#[derive(Clone, Copy, PartialEq, Eq, Structural, Debug)]
pub struct ColorRgb {
    pub r: u32,
    pub g: u32,
    pub b: u32,
}

/// The initial velocity a player body spawns with, in milli-units per
/// second.
pub const SPAWN_VX: i64 = 1 * 1000;

/// The initial vertical velocity a player body spawns with, in
/// milli-units per second.
pub const SPAWN_VY: i64 = 2 * 1000;

/// The fixed red used for obstacles without a color of their own.
pub open spec fn default_color_spec() -> ColorRgb {
    ColorRgb { r: 800, g: 200, b: 200 }
}

/// A validated obstacle: a closed polygon of exactly 4 vertices (local
/// coordinates) at a world position, its collision markers, and its
/// color if it has one. Consumers triangulate the quad as the fan
/// {0,1,2},{2,3,0}.
#[derive(Clone, Copy, PartialEq, Debug)]
pub struct ObstacleData {
    pub position: Vec2i,
    pub vertices: [Vec2i; 4],
    pub non_lethal: bool,
    pub is_finish: bool,
    pub color: Option<ColorRgb>,
}

/// A validated level: its identifier and its obstacles in spawn order.
#[derive(Debug)]
pub struct Level {
    pub level_id: u64,
    pub obstacles: Vec<ObstacleData>,
}

/// An obstacle record as decoded from a level document, before
/// validation: any number of vertices, optional fields still optional.
#[derive(Clone, Debug)]
pub struct RawObstacle {
    pub position: Vec2i,
    pub vertices: Vec<Vec2i>,
    pub non_lethal: Option<bool>,
    pub is_finish: Option<bool>,
    pub color: Option<ColorRgb>,
}

/// A level document as decoded from the named resource.
#[derive(Clone, Debug)]
pub struct RawLevel {
    pub level_id: u64,
    pub obstacles: Vec<RawObstacle>,
}

/// The structural invariant a raw obstacle must satisfy: exactly 4
/// vertices.
pub open spec fn raw_obstacle_ok(r: RawObstacle) -> bool {
    r.vertices@.len() == 4
}

/// A well-formed level document: every obstacle has exactly 4 vertices.
pub open spec fn doc_ok(d: RawLevel) -> bool {
    forall|i: int| 0 <= i < d.obstacles@.len() ==> raw_obstacle_ok(#[trigger] d.obstacles@[i])
}

/// A validated obstacle against its raw record: same position and
/// vertices, defaults applied to the optional markers, color kept as is.
pub open spec fn obstacle_matches_raw(o: ObstacleData, r: RawObstacle) -> bool {
    &&& o.position == r.position
    &&& o.vertices@ == r.vertices@
    &&& o.non_lethal == (r.non_lethal matches Some(true))
    &&& o.is_finish == (r.is_finish matches Some(true))
    &&& o.color == r.color
}

/// A validated level against its document: same identifier, obstacles
/// validated one for one in order.
pub open spec fn level_matches_doc(level: Level, d: RawLevel) -> bool {
    &&& level.level_id == d.level_id
    &&& level.obstacles@.len() == d.obstacles@.len()
    &&& forall|i: int|
        0 <= i < d.obstacles@.len() ==> obstacle_matches_raw(
            #[trigger] level.obstacles@[i],
            d.obstacles@[i],
        )
}

/// Validates a decoded level document. A missing document (the resource
/// could not be read or decoded) and a malformed one (an obstacle
/// without exactly 4 vertices) are both rejected as `None`; otherwise
/// the level holds the document's obstacles in order with the optional
/// flags defaulted to false.
pub fn load_level(doc: Option<RawLevel>) -> (r: Option<Level>)
    ensures
        r is Some <==> (doc matches Some(d) && doc_ok(d)),
        r matches Some(level) ==> (doc matches Some(d) && level_matches_doc(level, d)),
{
    if doc.is_none() {
        return None;
    }
    let d = doc.unwrap();
    let mut obstacles: Vec<ObstacleData> = Vec::new();
    let mut i: usize = 0;
    while i < d.obstacles.len()
        invariant
            doc == Some(d),
            i <= d.obstacles@.len(),
            obstacles@.len() == i,
            forall|k: int|
                0 <= k < i ==> raw_obstacle_ok(#[trigger] d.obstacles@[k]) && obstacle_matches_raw(
                    obstacles@[k],
                    d.obstacles@[k],
                ),
        decreases d.obstacles@.len() - i,
    {
        let raw = &d.obstacles[i];
        if raw.vertices.len() != 4 {
            proof {
                assert(!raw_obstacle_ok(d.obstacles@[i as int]));
                assert(!doc_ok(d));
            }
            return None;
        }
        let o = ObstacleData {
            position: raw.position,
            vertices: [raw.vertices[0], raw.vertices[1], raw.vertices[2], raw.vertices[3]],
            non_lethal: match raw.non_lethal {
                Some(b) => b,
                None => false,
            },
            is_finish: match raw.is_finish {
                Some(b) => b,
                None => false,
            },
            color: raw.color,
        };
        proof {
            assert(o.vertices@ =~= raw.vertices@);
        }
        obstacles.push(o);
        i += 1;
    }
    Some(Level { level_id: d.level_id, obstacles })
}

/// The fill color to render an obstacle with: its own where the document
/// gave one, otherwise the fixed default red.
pub fn obstacle_color(o: &ObstacleData) -> (c: ColorRgb)
    ensures
        c == match o.color {
            Some(own) => own,
            None => default_color_spec(),
        },
{
    match o.color {
        Some(own) => own,
        None => ColorRgb { r: 800, g: 200, b: 200 },
    }
}

/// The player body to spawn on entering play: position, initial
/// velocity, and the half-extents of its square collider, all in
/// milli-units.
#[derive(Clone, Copy, PartialEq, Eq, Structural, Debug)]
pub struct PlayerSpawn {
    pub position: Vec2i,
    pub velocity: Vec2i,
    pub half_extents: Vec2i,
}

/// The one player spawned for every playing session: at the fixed spawn
/// point, with the fixed initial velocity and the fixed 30-by-30 body.
pub open spec fn player_spawn_spec() -> PlayerSpawn {
    PlayerSpawn {
        position: Vec2i { x: START_X, y: SPAWN_Y },
        velocity: Vec2i { x: SPAWN_VX, y: SPAWN_VY },
        half_extents: Vec2i { x: PLAYER_HALF_EXTENT, y: PLAYER_HALF_EXTENT },
    }
}

/// Everything the playing screen spawns: the level's obstacles (with
/// their markers) and the player. With no level, nothing is spawned and
/// the session has no player.
pub struct SpawnPlan {
    pub obstacles: Vec<ObstacleData>,
    pub player: Option<PlayerSpawn>,
}

/// The setup for entering play: with a loaded level, the plan spawns
/// exactly the level's obstacles — count, order, positions and markers
/// unchanged — plus exactly one player at the fixed spawn point; with
/// none, the plan is empty.
pub fn setup_gameplay(level: Option<Level>) -> (plan: SpawnPlan)
    ensures
        match level {
            Some(l) => plan.obstacles@ == l.obstacles@ && plan.player == Some(player_spawn_spec()),
            None => plan.obstacles@.len() == 0 && plan.player is None,
        },
{
    match level {
        Some(l) => SpawnPlan {
            obstacles: l.obstacles,
            player: Some(
                PlayerSpawn {
                    position: Vec2i { x: START_X, y: SPAWN_Y },
                    velocity: Vec2i { x: SPAWN_VX, y: SPAWN_VY },
                    half_extents: Vec2i { x: PLAYER_HALF_EXTENT, y: PLAYER_HALF_EXTENT },
                },
            ),
        },
        None => SpawnPlan { obstacles: Vec::new(), player: None },
    }
}

} // verus!
