use dash_core::player::{
    player_movement_system, JumpBuffer, Velocity, JUMP_BUFFER_WINDOW_MS, JUMP_IMPULSE,
    PLAYER_SPEED_X,
};

#[test]
fn forward_speed_is_forced_every_tick() {
    let mut vel = Velocity { vx: 0, vy: -40_000 };
    let mut buffer = JumpBuffer::new();
    player_movement_system(20_000, &mut vel, &mut buffer, false, 16);
    assert_eq!(vel.vx, PLAYER_SPEED_X);
    assert_eq!(vel.vy, -40_000);
}

#[test]
fn buffered_press_fires_on_landing_within_the_window() {
    // press at t = 0.05 s while airborne, land at t = 0.09 s
    let mut vel = Velocity { vx: 0, vy: -50_000 };
    let mut buffer = JumpBuffer::new();

    // t = 0.05 s: jump pressed in the air (y > 0): buffered, no jump
    player_movement_system(20_000, &mut vel, &mut buffer, true, 50);
    assert_eq!(buffer.elapsed_ms, 0);
    assert_eq!(vel.vy, -50_000);

    // t = 0.09 s: grounded (y <= 0, vy == 0), 40 ms after the press:
    // inside the 100 ms window, so the jump fires once
    vel.vy = 0;
    player_movement_system(0, &mut vel, &mut buffer, false, 40);
    assert_eq!(vel.vy, JUMP_IMPULSE);
    assert_eq!(buffer.elapsed_ms, JUMP_BUFFER_WINDOW_MS);

    // t = 0.25 s: grounded again with no new press: no second jump
    vel.vy = 0;
    player_movement_system(0, &mut vel, &mut buffer, false, 160);
    assert_eq!(vel.vy, 0);
    assert_eq!(buffer.elapsed_ms, JUMP_BUFFER_WINDOW_MS);
}

#[test]
fn press_too_long_before_landing_expires() {
    let mut vel = Velocity { vx: 0, vy: -50_000 };
    let mut buffer = JumpBuffer::new();
    player_movement_system(20_000, &mut vel, &mut buffer, true, 16);
    // 120 ms pass before the player is grounded: the buffer has expired
    vel.vy = 0;
    player_movement_system(0, &mut vel, &mut buffer, false, 120);
    assert_eq!(vel.vy, 0);
    assert_eq!(buffer.elapsed_ms, JUMP_BUFFER_WINDOW_MS);
}

#[test]
fn airborne_player_does_not_jump_even_with_fresh_press() {
    let mut vel = Velocity { vx: 0, vy: 0 };
    let mut buffer = JumpBuffer::new();
    // y > 0: not grounded, no jump even though the press is fresh
    player_movement_system(5_000, &mut vel, &mut buffer, true, 16);
    assert_eq!(vel.vy, 0);
    assert_eq!(buffer.elapsed_ms, 0);
}

#[test]
fn moving_vertically_blocks_the_jump() {
    let mut vel = Velocity { vx: 0, vy: 2_000 };
    let mut buffer = JumpBuffer::new();
    // grounded position but still moving upward: not stationary, no jump
    player_movement_system(0, &mut vel, &mut buffer, true, 16);
    assert_eq!(vel.vy, 2_000);
    assert_eq!(buffer.elapsed_ms, 0);
}

#[test]
fn press_on_the_ground_fires_at_once() {
    let mut vel = Velocity { vx: 0, vy: 0 };
    let mut buffer = JumpBuffer::new();
    player_movement_system(0, &mut vel, &mut buffer, true, 16);
    assert_eq!(vel.vy, JUMP_IMPULSE);
    assert_eq!(buffer.elapsed_ms, JUMP_BUFFER_WINDOW_MS);
}

#[test]
fn fresh_buffer_is_expired() {
    let buffer = JumpBuffer::new();
    assert_eq!(buffer.elapsed_ms, JUMP_BUFFER_WINDOW_MS);
}
