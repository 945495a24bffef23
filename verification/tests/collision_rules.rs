use dash_core::collision::{
    classify_contact, collision_event_system, is_top_collision, ContactEvent, ContactOutcome,
    ObstacleRef, PlayerRef,
};
use dash_core::state::{GameFlow, GameState};
use dash_core::units::{OBSTACLE_HALF_EXTENT, PLAYER_HALF_EXTENT};

fn started(a: u64, b: u64) -> ContactEvent {
    ContactEvent { started: true, a, b }
}

fn playing_flow() -> GameFlow {
    let mut flow = GameFlow::new();
    flow.request_transition(GameState::Playing);
    flow.end_tick();
    flow
}

#[test]
fn top_collision_flips_exactly_at_the_threshold() {
    // player bottom = y - 15000, obstacle top = 10000 + 12500 = 22500
    let oy = 10_000;
    // bottom exactly at the top: not a top collision
    assert!(!is_top_collision(37_500, PLAYER_HALF_EXTENT, oy, OBSTACLE_HALF_EXTENT));
    // one milli-unit above: a top collision
    assert!(is_top_collision(37_501, PLAYER_HALF_EXTENT, oy, OBSTACLE_HALF_EXTENT));
    // raising the player further keeps it true
    assert!(is_top_collision(50_000, PLAYER_HALF_EXTENT, oy, OBSTACLE_HALF_EXTENT));
    // below the threshold it stays false
    assert!(!is_top_collision(0, PLAYER_HALF_EXTENT, oy, OBSTACLE_HALF_EXTENT));
}

#[test]
fn landing_on_non_lethal_obstacle_means_nothing() {
    let player = PlayerRef { entity: 1, y: 40_000 };
    let obstacle_a = ObstacleRef {
        entity: 2,
        y: 10_000,
        half_height: OBSTACLE_HALF_EXTENT,
        non_lethal: true,
        is_finish: false,
    };
    let obstacles = vec![obstacle_a];
    let outcome = classify_contact(Some(player), &obstacles, started(1, 2));
    assert_eq!(outcome, ContactOutcome::Landed);

    let mut flow = playing_flow();
    collision_event_system(&vec![started(1, 2)], Some(player), &obstacles, &mut flow);
    assert_eq!(flow.pending, None);
}

#[test]
fn plain_obstacle_contact_is_game_over() {
    let player = PlayerRef { entity: 1, y: 10_000 };
    let obstacle_b = ObstacleRef {
        entity: 7,
        y: 10_000,
        half_height: OBSTACLE_HALF_EXTENT,
        non_lethal: false,
        is_finish: false,
    };
    let obstacles = vec![obstacle_b];
    // the pair arrives in either order
    let outcome = classify_contact(Some(player), &obstacles, started(7, 1));
    assert_eq!(outcome, ContactOutcome::Fail);

    let mut flow = playing_flow();
    collision_event_system(&vec![started(7, 1)], Some(player), &obstacles, &mut flow);
    assert_eq!(flow.pending, Some(GameState::GameOver));
}

#[test]
fn side_hit_on_non_lethal_obstacle_is_game_over() {
    let player = PlayerRef { entity: 1, y: 10_000 };
    let obstacle = ObstacleRef {
        entity: 2,
        y: 10_000,
        half_height: OBSTACLE_HALF_EXTENT,
        non_lethal: true,
        is_finish: false,
    };
    let obstacles = vec![obstacle];
    let outcome = classify_contact(Some(player), &obstacles, started(1, 2));
    assert_eq!(outcome, ContactOutcome::Fail);
}

#[test]
fn finish_line_wins_over_every_marker() {
    let player = PlayerRef { entity: 1, y: 40_000 };
    let obstacle_c = ObstacleRef {
        entity: 3,
        y: 10_000,
        half_height: OBSTACLE_HALF_EXTENT,
        non_lethal: true,
        is_finish: true,
    };
    let obstacles = vec![obstacle_c];
    let outcome = classify_contact(Some(player), &obstacles, started(3, 1));
    assert_eq!(outcome, ContactOutcome::Finish);

    let mut flow = playing_flow();
    collision_event_system(&vec![started(3, 1)], Some(player), &obstacles, &mut flow);
    assert_eq!(flow.pending, Some(GameState::VictoryScreen));
}

#[test]
fn without_a_live_player_events_are_skipped() {
    let obstacles = vec![ObstacleRef {
        entity: 2,
        y: 0,
        half_height: OBSTACLE_HALF_EXTENT,
        non_lethal: false,
        is_finish: false,
    }];
    let outcome = classify_contact(None, &obstacles, started(1, 2));
    assert_eq!(outcome, ContactOutcome::Skipped);

    let mut flow = playing_flow();
    collision_event_system(&vec![started(1, 2)], None, &obstacles, &mut flow);
    assert_eq!(flow.pending, None);
}

#[test]
fn pairs_without_the_player_are_skipped() {
    let player = PlayerRef { entity: 1, y: 0 };
    let obstacles = vec![ObstacleRef {
        entity: 2,
        y: 0,
        half_height: OBSTACLE_HALF_EXTENT,
        non_lethal: false,
        is_finish: false,
    }];
    // two foreign bodies touching
    let outcome = classify_contact(Some(player), &obstacles, started(8, 9));
    assert_eq!(outcome, ContactOutcome::Skipped);
    // the player touching a body that is no obstacle
    let outcome = classify_contact(Some(player), &obstacles, started(1, 9));
    assert_eq!(outcome, ContactOutcome::Skipped);
}

#[test]
fn contact_stops_are_ignored() {
    let player = PlayerRef { entity: 1, y: 0 };
    let obstacles = vec![ObstacleRef {
        entity: 2,
        y: 0,
        half_height: OBSTACLE_HALF_EXTENT,
        non_lethal: false,
        is_finish: false,
    }];
    let stop = ContactEvent { started: false, a: 1, b: 2 };
    let outcome = classify_contact(Some(player), &obstacles, stop);
    assert_eq!(outcome, ContactOutcome::Skipped);
}

#[test]
fn last_meaningful_event_of_a_tick_wins() {
    let player = PlayerRef { entity: 1, y: 10_000 };
    let lethal = ObstacleRef {
        entity: 2,
        y: 10_000,
        half_height: OBSTACLE_HALF_EXTENT,
        non_lethal: false,
        is_finish: false,
    };
    let finish = ObstacleRef {
        entity: 3,
        y: 10_000,
        half_height: OBSTACLE_HALF_EXTENT,
        non_lethal: false,
        is_finish: true,
    };
    let obstacles = vec![lethal, finish];
    let mut flow = playing_flow();
    collision_event_system(
        &vec![started(1, 2), started(1, 3)],
        Some(player),
        &obstacles,
        &mut flow,
    );
    assert_eq!(flow.pending, Some(GameState::VictoryScreen));
}

#[test]
fn outside_play_the_classifier_is_inert() {
    let player = PlayerRef { entity: 1, y: 10_000 };
    let obstacles = vec![ObstacleRef {
        entity: 2,
        y: 10_000,
        half_height: OBSTACLE_HALF_EXTENT,
        non_lethal: false,
        is_finish: false,
    }];
    let mut flow = GameFlow::new();
    collision_event_system(&vec![started(1, 2)], Some(player), &obstacles, &mut flow);
    assert_eq!(flow.pending, None);
    assert_eq!(flow.current, GameState::TitleScreen);
}

#[test]
fn per_obstacle_half_height_shifts_the_threshold() {
    let player = PlayerRef { entity: 1, y: 36_000 }; // bottom edge at 21000
    let tall = ObstacleRef {
        entity: 2,
        y: 0,
        half_height: 20_000,
        non_lethal: true,
        is_finish: false,
    };
    let taller = ObstacleRef {
        entity: 3,
        y: 0,
        half_height: 22_000,
        non_lethal: true,
        is_finish: false,
    };
    let obstacles = vec![tall, taller];
    // bottom at 21000 clears a top edge at 20000 but not one at 22000
    assert_eq!(
        classify_contact(Some(player), &obstacles, started(1, 2)),
        ContactOutcome::Landed
    );
    assert_eq!(
        classify_contact(Some(player), &obstacles, started(1, 3)),
        ContactOutcome::Fail
    );
}
