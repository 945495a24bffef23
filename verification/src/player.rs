//! The player controller: constant forward drive and an input-buffered,
//! edge-triggered jump.
//!
//! Every simulation tick the horizontal velocity is forced to the fixed
//! forward speed. A jump press is buffered: it resets the buffer timer,
//! and the jump fires on the first tick on which the player is grounded
//! (at or below the ground reference, vertical velocity within an epsilon
//! of zero) while the timer is still inside the buffer window. Firing
//! forces the timer to its expired state, so one buffered press cannot
//! fire twice on the same grounded contact.

use vstd::prelude::*;

use crate::units::GROUND_Y;

verus! {

/// The fixed forward speed, in milli-units per second (200 units/sec).
pub const PLAYER_SPEED_X: i64 = 200 * 1000;

/// The fixed jump impulse, in milli-units per second (300 units/sec).
pub const JUMP_IMPULSE: i64 = 300 * 1000;

/// The jump-buffer window, in milliseconds (0.1 s).
pub const JUMP_BUFFER_WINDOW_MS: u64 = 100;

/// The grounded-velocity epsilon, in milli-units per second: a vertical
/// velocity of smaller magnitude counts as stationary.
pub const VY_EPSILON: i64 = 1;

/// The player's linear velocity, in milli-units per second.
#[derive(Clone, Copy, PartialEq, Eq, Structural, Debug)]
pub struct Velocity {
    pub vx: i64,
    pub vy: i64,
}

/// The jump-input buffer: how many milliseconds ago the last jump press
/// was observed, saturated at the window. At or past
/// [`JUMP_BUFFER_WINDOW_MS`] the buffer counts as expired.
#[derive(Clone, Copy, PartialEq, Eq, Structural, Debug)]
pub struct JumpBuffer {
    pub elapsed_ms: u64,
}

impl JumpBuffer {
    /// A fresh buffer is expired: no press has been observed yet.
    pub fn new() -> (b: JumpBuffer)
        ensures
            b.elapsed_ms == JUMP_BUFFER_WINDOW_MS,
    {
        JumpBuffer { elapsed_ms: JUMP_BUFFER_WINDOW_MS }
    }
}

/// The buffer timer after one tick's input handling: advanced by the
/// tick's duration (saturating at the window), then reset to zero if a
/// jump press was observed this tick.
pub open spec fn buffer_after_input(elapsed_ms: u64, delta_ms: u64, jump_pressed: bool) -> int {
    if jump_pressed {
        0
    } else {
        vstd::math::min(elapsed_ms + delta_ms, JUMP_BUFFER_WINDOW_MS as int)
    }
}

/// Whether the buffered jump fires this tick: the player is grounded
/// (at or below the ground reference, vertical velocity within the
/// epsilon of zero) and the buffer timer is still inside the window.
pub open spec fn jump_fires(pos_y: i64, vy: i64, elapsed_after: int) -> bool {
    &&& pos_y <= GROUND_Y
    &&& elapsed_after < JUMP_BUFFER_WINDOW_MS
    &&& -VY_EPSILON < vy < VY_EPSILON
}

/// One controller tick for the live player: forces the horizontal
/// velocity to the forward speed, ticks the jump buffer (a press this
/// tick resets it), and fires the buffered jump — setting the vertical
/// velocity to the jump impulse and expiring the buffer — exactly when
/// [`jump_fires`] holds.
pub fn player_movement_system(
    pos_y: i64,
    velocity: &mut Velocity,
    buffer: &mut JumpBuffer,
    jump_pressed: bool,
    delta_ms: u64,
)
    ensures
        final(velocity).vx == PLAYER_SPEED_X,
        ({
            let e = buffer_after_input(old(buffer).elapsed_ms, delta_ms, jump_pressed);
            if jump_fires(pos_y, old(velocity).vy, e) {
                final(velocity).vy == JUMP_IMPULSE && final(buffer).elapsed_ms
                    == JUMP_BUFFER_WINDOW_MS
            } else {
                final(velocity).vy == old(velocity).vy && final(buffer).elapsed_ms == e
            }
        }),
{
    velocity.vx = PLAYER_SPEED_X;
    let e: u64 = if jump_pressed {
        0
    } else if buffer.elapsed_ms >= JUMP_BUFFER_WINDOW_MS || delta_ms >= JUMP_BUFFER_WINDOW_MS {
        JUMP_BUFFER_WINDOW_MS
    } else {
        let advanced = buffer.elapsed_ms + delta_ms;
        if advanced >= JUMP_BUFFER_WINDOW_MS {
            JUMP_BUFFER_WINDOW_MS
        } else {
            advanced
        }
    };
    buffer.elapsed_ms = e;
    if pos_y <= GROUND_Y && e < JUMP_BUFFER_WINDOW_MS && velocity.vy > -VY_EPSILON && velocity.vy
        < VY_EPSILON {
        velocity.vy = JUMP_IMPULSE;
        buffer.elapsed_ms = JUMP_BUFFER_WINDOW_MS;
    }
}

} // verus!
