//! The library's laws: properties of the simulation stated over the
//! tick and input specifications and proved once for all states and
//! all draws.

use vstd::prelude::*;

use crate::actor::ActorView;
use crate::config::COLLIDE_X;
use crate::config::COLLIDE_Y;
use crate::config::DIFFICULTY_STEP;
use crate::config::DRAW_ONE;
use crate::config::GRAVITY;
use crate::config::GROUND_Y;
use crate::config::RAMP_INTERVAL;
use crate::config::SPAWN_GATE;
use crate::config::SPAWN_INTERVAL;
use crate::config::TICK_LIMIT;
use crate::obstacle::collides;
use crate::obstacle::spawned_obstacle;
use crate::obstacle::ObstacleView;
use crate::session::advanced;
use crate::session::input_spec;
use crate::session::lemma_survivors_len;
use crate::session::lemma_tick_spec_wf;
use crate::session::survivors;
use crate::session::tick_spec;
use crate::session::Command;
use crate::session::GameView;

verus! {

/// Gravity precedes integration: on any tick of a live run with an
/// airborne actor, the velocity first drops by exactly the gravity
/// decrement, and the position then moves by that decremented
/// velocity (unless the move would undershoot the ground, in which
/// case the actor is clamped onto it).
pub proof fn lemma_gravity_before_integration(s: GameView, g: int, h: int, c: int)
    requires
        !s.game_over,
        !s.actor.grounded,
    ensures
        s.actor.y + (s.actor.vy - GRAVITY as int) >= GROUND_Y as int ==> {
            &&& tick_spec(s, g, h, c).actor.vy == s.actor.vy - GRAVITY as int
            &&& tick_spec(s, g, h, c).actor.y == s.actor.y + (s.actor.vy - GRAVITY as int)
        },
        s.actor.y + (s.actor.vy - GRAVITY as int) < GROUND_Y as int ==> {
            &&& tick_spec(s, g, h, c).actor.y == GROUND_Y as int
            &&& tick_spec(s, g, h, c).actor.vy == 0
            &&& tick_spec(s, g, h, c).actor.grounded
        },
{
}

/// Ground clamp: the actor's position a caller can observe never lies
/// below the ground, on this tick or any other; and whenever the move
/// would undershoot, that same tick leaves the actor grounded with
/// zero velocity.
pub proof fn lemma_never_below_ground(s: GameView, g: int, h: int, c: int)
    requires
        s.wf(),
    ensures
        tick_spec(s, g, h, c).actor.y >= GROUND_Y as int,
{
}

/// Jump no-op: a jump while airborne, or at any time after the run
/// has ended, changes nothing at all.
pub proof fn lemma_jump_ignored(s: GameView)
    requires
        !s.actor.grounded || s.game_over,
    ensures
        input_spec(s, Command::Jump) == s,
{
}

/// Collision boundary: contact is exclusive on all four edges — a
/// horizontal separation of exactly plus or minus 3.00 units, or a
/// vertical one exactly at either end of its window, is no collision,
/// while separations strictly inside both windows are.
pub proof fn lemma_collision_boundary(a: ActorView, o: ObstacleView)
    ensures
        a.x - o.x == COLLIDE_X as int ==> !collides(a, o),
        a.x - o.x == -(COLLIDE_X as int) ==> !collides(a, o),
        a.y - GROUND_Y as int == -(COLLIDE_Y as int) ==> !collides(a, o),
        a.y - GROUND_Y as int == COLLIDE_Y as int + 100 * o.height ==> !collides(a, o),
        ((-(COLLIDE_X as int) < a.x - o.x) && (a.x - o.x < COLLIDE_X as int) && (-(COLLIDE_Y as int)
            < a.y - (GROUND_Y as int)) && (a.y - (GROUND_Y as int) < (COLLIDE_Y as int) + 100
            * o.height)) ==> collides(a, o),
{
}

/// Score monotonicity: a tick never lowers the score, and raises it by
/// exactly one point per removed obstacle plus one survival point on
/// each ramp tick.
pub proof fn lemma_score_monotone(s: GameView, g: int, h: int, c: int)
    requires
        s.wf(),
    ensures
        tick_spec(s, g, h, c).score >= s.score,
        !s.game_over ==> {
            let t = s.tick_count + 1;
            let spawned: int = if t % (SPAWN_INTERVAL as int) == 0 && g * s.difficulty
                > SPAWN_GATE as int {
                1
            } else {
                0
            };
            let ramp_bonus: int = if t % (RAMP_INTERVAL as int) == 0 {
                1
            } else {
                0
            };
            let removed = s.obstacles.len() + spawned - tick_spec(s, g, h, c).obstacles.len();
            &&& removed >= 0
            &&& tick_spec(s, g, h, c).score == s.score + ramp_bonus + removed
        },
{
    if !s.game_over {
        let t = s.tick_count + 1;
        let spawning = t % (SPAWN_INTERVAL as int) == 0 && g * s.difficulty > SPAWN_GATE as int;
        let obs = if spawning {
            s.obstacles.push(spawned_obstacle(h, c))
        } else {
            s.obstacles
        };
        let diff = if t % (RAMP_INTERVAL as int) == 0 {
            s.difficulty + DIFFICULTY_STEP as int
        } else {
            s.difficulty
        };
        lemma_survivors_len(obs, diff);
        assert(survivors(obs, diff) == tick_spec(s, g, h, c).obstacles);
    }
}

/// No obstacle ever reverses direction: one tick of scrolling at any
/// reachable difficulty strictly lowers a live obstacle's position.
pub proof fn lemma_obstacles_only_move_left(o: ObstacleView, diff: int)
    requires
        o.wf(),
        1 <= diff,
    ensures
        advanced(o, diff).x < o.x,
{
    vstd::arithmetic::div_mod::lemma_div_multiples_vanish(diff, 100);
}

/// Terminal stability: once the run has ended, a tick is the identity
/// — no obstacle position, actor state, score, difficulty or counter
/// changes until a reset.
pub proof fn lemma_frozen_after_game_over(s: GameView, g: int, h: int, c: int)
    requires
        s.game_over,
    ensures
        tick_spec(s, g, h, c) == s,
{
}

/// Ticking preserves well-formedness for any admissible draws: the
/// session invariant of a live run can never be left.
pub proof fn lemma_tick_preserves_wf(s: GameView, g: int, h: int, c: int)
    requires
        s.wf(),
        s.tick_count < TICK_LIMIT as int,
        0 <= g < DRAW_ONE as int,
        0 <= h < DRAW_ONE as int,
        0 <= c,
    ensures
        tick_spec(s, g, h, c).wf(),
{
    lemma_tick_spec_wf(s, g, h, c);
}

} // verus!
