//! World constants. Coordinates and velocities are fixed-point integers
//! counted in hundredths of a world unit ("centiunits"), so one world
//! unit is 100 and one tick of gravity (0.09 units) is 9.

use vstd::prelude::*;

verus! {

/// Ground level: the actor rests at 24.00 world units.
pub const GROUND_Y: i64 = 2400;

/// The actor's fixed horizontal position, 20.00 world units.
pub const ACTOR_X: i64 = 2000;

/// Right edge of the playfield, where obstacles spawn (210.00 units).
pub const SPAWN_X: i64 = 21000;

/// Upward velocity given by a jump: 2.80 units per tick.
pub const JUMP_IMPULSE: i64 = 280;

/// Loss of vertical velocity per airborne tick: 0.09 units per tick.
pub const GRAVITY: i64 = 9;

/// Horizontal speed of every obstacle before difficulty scaling:
/// 1.00 units per tick.
pub const OBSTACLE_SPEED: i64 = 100;

/// Largest obstacle height, in whole world units.
pub const MAX_HEIGHT: u64 = 24;

/// Horizontal half-width of the lethal zone around the actor:
/// contact needs a separation strictly inside 3.00 units.
pub const COLLIDE_X: i64 = 300;

/// Base vertical tolerance of the lethal zone: strictly inside
/// (-2.00, 2.00 + obstacle height) units.
pub const COLLIDE_Y: i64 = 200;

/// A spawn gate is evaluated on every tick divisible by this.
pub const SPAWN_INTERVAL: u64 = 15;

/// Difficulty rises and a survival point is awarded on every tick
/// divisible by this.
pub const RAMP_INTERVAL: u64 = 100;

/// Difficulty multiplier at the start of a run: 1.00.
pub const DIFFICULTY_START: u64 = 100;

/// Difficulty gained on each ramp tick: 0.03.
pub const DIFFICULTY_STEP: u64 = 3;

/// Divisor that undoes the difficulty scale after a multiplication.
pub const DIFFICULTY_SCALE: u64 = 100;

/// Random draws are uniform integers in [0, DRAW_ONE), standing for
/// fractions of one with this denominator.
pub const DRAW_ONE: u64 = 10000;

/// A spawn-eligible tick spawns an obstacle iff draw * difficulty
/// exceeds this: the fixed-point form of draw > 0.9 / difficulty.
pub const SPAWN_GATE: u64 = 900000;

/// Ticks are counted only up to this bound, roughly five hundred years
/// at sixty ticks per second; it keeps every intermediate product of a
/// tick far inside the machine integer range.
pub const TICK_LIMIT: u64 = 1000000000000;

/// Largest difficulty reachable within `TICK_LIMIT` ticks.
pub const DIFFICULTY_LIMIT: u64 = 30000000100;

/// Upper bound on `18 * y + vy * (vy + GRAVITY)` for an airborne actor.
/// The quantity drops by exactly 162 per airborne tick and a jump from
/// the ground sets it to exactly this value, so it bounds the whole
/// flight: `18 * GROUND_Y + JUMP_IMPULSE * (JUMP_IMPULSE + GRAVITY)`.
pub const ASCENT_BOUND: i64 = 124120;

/// No airborne actor rises above this height (in centiunits); it
/// follows from `ASCENT_BOUND`.
pub const CEILING_Y: i64 = 6900;

/// No airborne actor falls faster than this (in centiunits per tick);
/// it follows from `ASCENT_BOUND`.
pub const FALL_LIMIT: i64 = 300;

} // verus!
