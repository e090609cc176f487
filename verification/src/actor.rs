//! The player-controlled body: one-dimensional vertical physics with
//! gravity, a fixed jump impulse, and a ground clamp.

use vstd::prelude::*;

use crate::config::ACTOR_X;
use crate::config::ASCENT_BOUND;
use crate::config::CEILING_Y;
use crate::config::FALL_LIMIT;
use crate::config::GRAVITY;
use crate::config::GROUND_Y;
use crate::config::JUMP_IMPULSE;

verus! {

/// The player-controlled body. `x` is a fixed column; `y` and `vy`
/// are the vertical position and velocity in centiunits. `grounded`
/// means the body rests on the ground.
#[derive(Clone, Copy, Debug, PartialEq, Eq, Structural)]
pub struct Actor {
    pub x: i64,
    pub y: i64,
    pub vy: i64,
    pub grounded: bool,
}

/// The mathematical image of an [`Actor`].
#[verifier::ext_equal]
pub ghost struct ActorView {
    pub x: int,
    pub y: int,
    pub vy: int,
    pub grounded: bool,
}

impl View for Actor {
    type V = ActorView;

    open spec fn view(&self) -> ActorView {
        ActorView { x: self.x as int, y: self.y as int, vy: self.vy as int, grounded: self.grounded }
    }
}

impl ActorView {
    /// Well-formedness of an actor between ticks. A grounded actor
    /// rests exactly on the ground with no vertical velocity. An
    /// airborne actor never sits below the ground, and the quantity
    /// `18 * y + vy * (vy + GRAVITY)` — set to exactly `ASCENT_BOUND`
    /// by a jump and shrinking on every airborne tick — stays under
    /// `ASCENT_BOUND`, which pins both position and velocity into a
    /// narrow band.
    pub open spec fn wf(self) -> bool {
        &&& self.x == ACTOR_X as int
        &&& self.grounded ==> self.y == GROUND_Y as int && self.vy == 0
        &&& !self.grounded ==> {
            &&& GROUND_Y as int <= self.y <= CEILING_Y as int
            &&& -(FALL_LIMIT as int) <= self.vy <= JUMP_IMPULSE as int
            &&& 18 * self.y + self.vy * (self.vy + GRAVITY as int) <= ASCENT_BOUND as int
        }
    }
}

/// The actor at its spawn point: resting on the ground.
pub open spec fn initial_actor() -> ActorView {
    ActorView { x: ACTOR_X as int, y: GROUND_Y as int, vy: 0, grounded: true }
}

/// One tick of vertical physics. Gravity first takes one decrement off
/// the velocity of an airborne actor; the position then moves by the
/// decremented velocity; and if the move would end below the ground,
/// the actor is clamped onto it, its velocity zeroed and `grounded`
/// set — so the position a caller observes never lies below the
/// ground.
pub open spec fn actor_step(a: ActorView) -> ActorView {
    let vy = if a.grounded {
        a.vy
    } else {
        a.vy - GRAVITY as int
    };
    let y = a.y + vy;
    if y < GROUND_Y as int {
        ActorView { y: GROUND_Y as int, vy: 0, grounded: true, ..a }
    } else {
        ActorView { y: y, vy: vy, ..a }
    }
}

/// The actor just after a jump from the ground: the fixed upward
/// impulse replaces its velocity and it leaves the ground.
pub open spec fn jumped(a: ActorView) -> ActorView {
    ActorView { vy: JUMP_IMPULSE as int, grounded: false, ..a }
}

/// One tick of physics keeps an actor well-formed: the ascent quantity
/// drops by exactly 162 on an airborne tick, so its bound is kept, and
/// the bound in turn keeps the position and velocity in range.
pub proof fn lemma_actor_step_wf(a: ActorView)
    requires
        a.wf(),
    ensures
        actor_step(a).wf(),
{
    if !a.grounded {
        let vy = a.vy - GRAVITY as int;
        let y = a.y + vy;
        if y >= GROUND_Y as int {
            assert(18 * y + vy * (vy + GRAVITY as int) <= ASCENT_BOUND as int - 162)
                by (nonlinear_arith)
                requires
                    vy == a.vy - 9,
                    y == a.y + vy,
                    18 * a.y + a.vy * (a.vy + 9) <= 124120,
            ;
            assert(vy >= -(FALL_LIMIT as int)) by (nonlinear_arith)
                requires
                    18 * y + vy * (vy + 9) <= 124120 - 162,
                    y >= 2400,
            ;
            assert(y <= CEILING_Y as int) by (nonlinear_arith)
                requires
                    18 * y + vy * (vy + 9) <= 124120 - 162,
            ;
        }
    }
}

/// A jump from the ground sets the ascent quantity to exactly its
/// bound, so the jumped actor is well-formed.
pub proof fn lemma_jump_wf(a: ActorView)
    requires
        a.wf(),
        a.grounded,
    ensures
        jumped(a).wf(),
{
    assert(18 * (GROUND_Y as int) + (JUMP_IMPULSE as int) * (JUMP_IMPULSE as int + GRAVITY as int)
        == ASCENT_BOUND as int);
}

impl Actor {
    /// A fresh actor at the spawn point, resting on the ground.
    pub fn new() -> (a: Actor)
        ensures
            a@ == initial_actor(),
            a@.wf(),
    {
        Actor { x: ACTOR_X, y: GROUND_Y, vy: 0, grounded: true }
    }

    /// Advance this actor by one tick of vertical physics.
    pub fn apply_physics(&mut self)
        requires
            old(self)@.wf(),
        ensures
            final(self)@ == actor_step(old(self)@),
            final(self)@.wf(),
    {
        proof {
            lemma_actor_step_wf(self@);
        }
        if !self.grounded {
            self.vy = self.vy - GRAVITY;
        }
        self.y = self.y + self.vy;
        if self.y < GROUND_Y {
            self.y = GROUND_Y;
            self.vy = 0;
            self.grounded = true;
        }
    }

    /// Take off from the ground with the fixed jump impulse. Only a
    /// grounded actor may jump; the caller enforces the rule that a
    /// jump mid-air or after the run has ended is ignored.
    pub fn jump(&mut self)
        requires
            old(self)@.wf(),
            old(self)@.grounded,
        ensures
            final(self)@ == jumped(old(self)@),
            final(self)@.wf(),
    {
        proof {
            lemma_jump_wf(self@);
        }
        self.vy = JUMP_IMPULSE;
        self.grounded = false;
    }
}

} // verus!
