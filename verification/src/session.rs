//! The game session: owner of all simulation state, the fixed-tick
//! orchestration (spawn, ramp, collision, movement, scoring, physics)
//! and the running / game-over / reset state machine.

use vstd::prelude::*;

use crate::actor::actor_step;
use crate::actor::initial_actor;
use crate::actor::jumped;
use crate::actor::lemma_actor_step_wf;
use crate::actor::Actor;
use crate::actor::ActorView;
use crate::config::DIFFICULTY_LIMIT;
use crate::config::DIFFICULTY_SCALE;
use crate::config::DIFFICULTY_START;
use crate::config::DIFFICULTY_STEP;
use crate::config::DRAW_ONE;
use crate::config::OBSTACLE_SPEED;
use crate::config::RAMP_INTERVAL;
use crate::config::SPAWN_GATE;
use crate::config::SPAWN_INTERVAL;
use crate::config::SPAWN_X;
use crate::config::TICK_LIMIT;
use crate::obstacle::collides;
use crate::obstacle::spawned_obstacle;
use crate::obstacle::Obstacle;
use crate::obstacle::ObstacleView;
use crate::rng::RandomSource;

verus! {

/// A command the external driver may forward to the session. Anything
/// else the driver recognizes (such as quitting) never reaches the
/// core.
#[derive(Clone, Copy, Debug, PartialEq, Eq, Structural)]
pub enum Command {
    Jump,
    Reset,
    Noop,
}

/// The views of a sequence of live obstacles.
pub open spec fn obs_views(s: Seq<Obstacle>) -> Seq<ObstacleView> {
    s.map_values(|o: Obstacle| o@)
}

/// One obstacle after one tick of scrolling: its position drops by its
/// own speed scaled by the difficulty multiplier.
pub open spec fn advanced(o: ObstacleView, diff: int) -> ObstacleView {
    ObstacleView { x: o.x - (o.vx * diff) / (DIFFICULTY_SCALE as int), ..o }
}

/// The obstacles still alive after one tick of scrolling: each moves
/// by its scaled speed, and those that crossed below the left edge are
/// removed. Insertion order of the survivors is kept.
pub open spec fn survivors(obs: Seq<ObstacleView>, diff: int) -> Seq<ObstacleView>
    decreases obs.len(),
{
    if obs.len() == 0 {
        Seq::empty()
    } else {
        let rest = survivors(obs.drop_last(), diff);
        let m = advanced(obs.last(), diff);
        if m.x >= 0 {
            rest.push(m)
        } else {
            rest
        }
    }
}

/// Whether any obstacle of the sequence is in contact with the actor.
pub open spec fn any_collision(a: ActorView, obs: Seq<ObstacleView>) -> bool {
    exists|i: int| 0 <= i < obs.len() && collides(a, obs[i])
}

/// The mathematical image of a [`GameSession`], not counting the
/// random source.
#[verifier::ext_equal]
pub ghost struct GameView {
    pub actor: ActorView,
    pub obstacles: Seq<ObstacleView>,
    pub tick_count: int,
    pub difficulty: int,
    pub score: int,
    pub game_over: bool,
}

impl GameView {
    /// Well-formedness of a session between ticks: the actor is in its
    /// flight envelope, the difficulty multiplier is exactly the start
    /// value plus one step per elapsed ramp interval, the score is
    /// bounded by the tick count (at most one survival point and one
    /// spawn per tick), and every live obstacle is inside the
    /// playfield.
    pub open spec fn wf(self) -> bool {
        &&& self.actor.wf()
        &&& 0 <= self.tick_count
        &&& 0 <= self.score
        &&& self.difficulty == DIFFICULTY_START as int + DIFFICULTY_STEP as int * (
        self.tick_count / RAMP_INTERVAL as int)
        &&& self.score + self.obstacles.len() <= 2 * self.tick_count
        &&& forall|i: int| 0 <= i < self.obstacles.len() ==> (#[trigger] self.obstacles[i]).wf()
    }
}

/// The state of a freshly constructed session: actor at rest on the
/// ground, no obstacles, zero ticks and score, difficulty at its start
/// value, running.
pub open spec fn initial_view() -> GameView {
    GameView {
        actor: initial_actor(),
        obstacles: Seq::empty(),
        tick_count: 0,
        difficulty: DIFFICULTY_START as int,
        score: 0,
        game_over: false,
    }
}

/// One tick of simulation, given the three uniform draws a
/// spawn-eligible tick may consume: `g` gates the spawn, `h` sets the
/// new obstacle's height and `c` its color (each draw is only read
/// where the tick needs it). In order: a finished run is left exactly
/// as it is; the tick counter advances; on a spawn-eligible tick the
/// gate `g * difficulty > SPAWN_GATE` appends one obstacle at the
/// right edge; on a ramp tick the difficulty rises one step and one
/// survival point is scored; contact is tested for every obstacle at
/// its pre-movement position against the actor's pre-movement
/// position, and any contact ends the run — from the next tick onward,
/// not this one; every obstacle then scrolls left by its scaled speed
/// and each one that crosses below the left edge is removed for one
/// point; last, the actor takes one tick of vertical physics.
pub open spec fn tick_spec(s: GameView, g: int, h: int, c: int) -> GameView {
    if s.game_over {
        s
    } else {
        let t = s.tick_count + 1;
        let spawning = t % (SPAWN_INTERVAL as int) == 0 && g * s.difficulty > SPAWN_GATE as int;
        let obs = if spawning {
            s.obstacles.push(spawned_obstacle(h, c))
        } else {
            s.obstacles
        };
        let ramp = t % (RAMP_INTERVAL as int) == 0;
        let diff = if ramp {
            s.difficulty + DIFFICULTY_STEP as int
        } else {
            s.difficulty
        };
        let base_score = if ramp {
            s.score + 1
        } else {
            s.score
        };
        let kept = survivors(obs, diff);
        GameView {
            actor: actor_step(s.actor),
            obstacles: kept,
            tick_count: t,
            difficulty: diff,
            score: base_score + obs.len() - kept.len(),
            game_over: any_collision(s.actor, obs),
        }
    }
}

/// The session after one driver command. A jump is accepted only while
/// the run is live and the actor is grounded, and then only replaces
/// the actor's velocity and grounded flag; a reset is accepted only
/// after the run has ended and rebuilds the initial state; anything
/// else, and any ignored command, leaves the session exactly as it
/// is.
pub open spec fn input_spec(s: GameView, cmd: Command) -> GameView {
    match cmd {
        Command::Jump => if !s.game_over && s.actor.grounded {
            GameView { actor: jumped(s.actor), ..s }
        } else {
            s
        },
        Command::Reset => if s.game_over {
            initial_view()
        } else {
            s
        },
        Command::Noop => s,
    }
}

/// Scrolling never lengthens the obstacle list.
pub proof fn lemma_survivors_len(obs: Seq<ObstacleView>, diff: int)
    ensures
        survivors(obs, diff).len() <= obs.len(),
    decreases obs.len(),
{
    if obs.len() > 0 {
        lemma_survivors_len(obs.drop_last(), diff);
    }
}

/// Scrolling keeps every surviving obstacle well-formed: positions
/// only decrease (the scaled speed is non-negative) and anything below
/// the left edge is gone.
pub proof fn lemma_survivors_wf(obs: Seq<ObstacleView>, diff: int)
    requires
        1 <= diff,
        forall|i: int| 0 <= i < obs.len() ==> (#[trigger] obs[i]).wf(),
    ensures
        forall|i: int|
            0 <= i < survivors(obs, diff).len() ==> (#[trigger] survivors(obs, diff)[i]).wf(),
    decreases obs.len(),
{
    if obs.len() > 0 {
        assert(forall|i: int|
            0 <= i < obs.drop_last().len() ==> (#[trigger] obs.drop_last()[i]).wf());
        lemma_survivors_wf(obs.drop_last(), diff);
        let rest = survivors(obs.drop_last(), diff);
        let o = obs.last();
        let m = advanced(o, diff);
        let r = survivors(obs, diff);
        assert(o.wf());
        assert((o.vx * diff) / (DIFFICULTY_SCALE as int) == diff) by {
            assert(o.vx == OBSTACLE_SPEED as int);
            vstd::arithmetic::div_mod::lemma_div_multiples_vanish(diff, 100);
        }
        if m.x >= 0 {
            assert(m.wf());
            assert forall|i: int| 0 <= i < r.len() implies (#[trigger] r[i]).wf() by {
                if i < r.len() - 1 {
                    assert(r[i] == rest[i]);
                } else {
                    assert(r[i] == m);
                }
            }
        } else {
            assert(r == rest);
        }
    }
}

/// A tick taken before the tick limit keeps the session well-formed.
pub proof fn lemma_tick_spec_wf(s: GameView, g: int, h: int, c: int)
    requires
        s.wf(),
        s.tick_count < TICK_LIMIT as int,
        0 <= g < DRAW_ONE as int,
        0 <= h < DRAW_ONE as int,
        0 <= c,
    ensures
        tick_spec(s, g, h, c).wf(),
{
    if !s.game_over {
        let t = s.tick_count + 1;
        let spawning = t % (SPAWN_INTERVAL as int) == 0 && g * s.difficulty > SPAWN_GATE as int;
        let obs = if spawning {
            s.obstacles.push(spawned_obstacle(h, c))
        } else {
            s.obstacles
        };
        let ramp = t % (RAMP_INTERVAL as int) == 0;
        let diff = if ramp {
            s.difficulty + DIFFICULTY_STEP as int
        } else {
            s.difficulty
        };
        lemma_actor_step_wf(s.actor);
        assert(forall|i: int| 0 <= i < obs.len() ==> (#[trigger] obs[i]).wf());
        assert(s.tick_count / 100 >= 0);
        assert(1 <= diff);
        lemma_survivors_wf(obs, diff);
        lemma_survivors_len(obs, diff);
        if ramp {
            assert(t / 100 == s.tick_count / 100 + 1);
        } else {
            assert(t / 100 == s.tick_count / 100);
        }
    }
}

/// The game session. It owns the whole simulation state together with
/// the injected random source; `handle_input` and `tick` are its only
/// mutation surfaces besides `reset`.
pub struct GameSession {
    pub actor: Actor,
    pub obstacles: Vec<Obstacle>,
    pub tick_count: u64,
    pub difficulty: u64,
    pub score: u64,
    pub game_over: bool,
    pub rng: RandomSource,
}

impl View for GameSession {
    type V = GameView;

    open spec fn view(&self) -> GameView {
        GameView {
            actor: self.actor@,
            obstacles: obs_views(self.obstacles@),
            tick_count: self.tick_count as int,
            difficulty: self.difficulty as int,
            score: self.score as int,
            game_over: self.game_over,
        }
    }
}

/// Whether any live obstacle is in contact with the actor.
fn scan_collisions(actor: &Actor, obstacles: &Vec<Obstacle>) -> (r: bool)
    ensures
        r == any_collision(actor@, obs_views(obstacles@)),
{
    let ghost m = obs_views(obstacles@);
    let mut hit = false;
    let mut i: usize = 0;
    while i < obstacles.len()
        invariant
            i <= obstacles.len(),
            m == obs_views(obstacles@),
            hit <==> exists|j: int| 0 <= j < i && collides(actor@, m[j]),
        decreases obstacles.len() - i,
    {
        proof {
            assert(m[i as int] == obstacles@[i as int]@);
        }
        if obstacles[i].collided_with(actor) {
            hit = true;
            assert(collides(actor@, m[i as int]));
        }
        i = i + 1;
    }
    hit
}

/// Scroll every obstacle left by its difficulty-scaled speed, drop
/// those that crossed below the left edge, and say how many were
/// dropped.
fn advance_obstacles(obstacles: &mut Vec<Obstacle>, diff: u64) -> (removed: u64)
    requires
        forall|i: int|
            0 <= i < old(obstacles)@.len() ==> (#[trigger] obs_views(old(obstacles)@)[i]).wf(),
        1 <= diff <= DIFFICULTY_LIMIT,
    ensures
        obs_views(final(obstacles)@) == survivors(obs_views(old(obstacles)@), diff as int),
        removed as int == old(obstacles)@.len() - final(obstacles)@.len(),
        final(obstacles)@.len() <= old(obstacles)@.len(),
{
    let ghost orig = obs_views(obstacles@);
    proof {
        lemma_survivors_len(orig, diff as int);
    }
    let mut kept: Vec<Obstacle> = Vec::new();
    let mut removed: u64 = 0;
    let n = obstacles.len();
    let mut i: usize = 0;
    while i < n
        invariant
            i <= n,
            n == obstacles@.len(),
            orig == obs_views(obstacles@),
            forall|j: int| 0 <= j < orig.len() ==> (#[trigger] orig[j]).wf(),
            1 <= diff <= DIFFICULTY_LIMIT,
            kept@.len() <= i,
            removed as int == i - kept@.len(),
            obs_views(kept@) == survivors(orig.take(i as int), diff as int),
        decreases n - i,
    {
        let o = obstacles[i];
        assert(o@ == orig[i as int]);
        assert(orig[i as int].wf());
        assert(o.vx == OBSTACLE_SPEED);
        assert(o.vx as u64 * diff <= 100 * DIFFICULTY_LIMIT) by (nonlinear_arith)
            requires
                o.vx == 100,
                diff <= DIFFICULTY_LIMIT,
        ;
        let amt = (o.vx as u64 * diff) / DIFFICULTY_SCALE;
        assert(amt as int == (o@.vx * diff as int) / (DIFFICULTY_SCALE as int));
        assert(amt == diff) by {
            vstd::arithmetic::div_mod::lemma_div_multiples_vanish(diff as int, 100);
        }
        let ghost m = advanced(orig[i as int], diff as int);
        let new_x = o.x - amt as i64;
        proof {
            assert(orig.take(i as int + 1).drop_last() =~= orig.take(i as int));
            assert(orig.take(i as int + 1).last() == orig[i as int]);
        }
        if new_x < 0 {
            removed = removed + 1;
            proof {
                assert(obs_views(kept@) =~= survivors(orig.take(i as int + 1), diff as int));
            }
        } else {
            kept.push(Obstacle { x: new_x, vx: o.vx, height: o.height, color: o.color });
            proof {
                assert(obs_views(kept@) =~= survivors(orig.take(i as int + 1), diff as int));
            }
        }
        i = i + 1;
    }
    proof {
        assert(orig.take(n as int) =~= orig);
    }
    *obstacles = kept;
    removed
}

impl GameSession {
    /// Construct the initial state: actor at rest on the ground, no
    /// obstacles, zero ticks and score, difficulty at its start value,
    /// running. The seed fixes the whole run's randomness.
    pub fn new(seed: u64) -> (s: GameSession)
        ensures
            s@ == initial_view(),
            s@.wf(),
    {
        let s = GameSession {
            actor: Actor::new(),
            obstacles: Vec::new(),
            tick_count: 0,
            difficulty: DIFFICULTY_START,
            score: 0,
            game_over: false,
            rng: RandomSource::from_seed(seed),
        };
        proof {
            assert(s@ =~= initial_view());
        }
        s
    }

    /// Advance the simulation by exactly one tick, with the three
    /// uniform draws handed in from outside. This is the deterministic
    /// heart of [`GameSession::tick`]: two calls from equal states
    /// with equal draws land in equal states, which is what makes the
    /// simulation reproducible under a seeded source.
    pub fn step(&mut self, g: u64, h: u64, c: u64)
        requires
            old(self)@.wf(),
            old(self).tick_count < TICK_LIMIT,
            g < DRAW_ONE,
            h < DRAW_ONE,
            c < 3,
        ensures
            final(self)@ == tick_spec(old(self)@, g as int, h as int, c as int),
            final(self)@.wf(),
            final(self).rng == old(self).rng,
    {
        proof {
            lemma_tick_spec_wf(self@, g as int, h as int, c as int);
        }
        if self.game_over {
            return ;
        }
        self.tick_count = self.tick_count + 1;
        let t = self.tick_count;
        assert(self.difficulty <= DIFFICULTY_LIMIT);
        assert(g * self.difficulty <= DRAW_ONE * DIFFICULTY_LIMIT) by (nonlinear_arith)
            requires
                g < DRAW_ONE,
                self.difficulty <= DIFFICULTY_LIMIT,
        ;
        if t % SPAWN_INTERVAL == 0 && g * self.difficulty > SPAWN_GATE {
            let height = Obstacle::height_of(h);
            let color = Obstacle::color_of(c);
            self.obstacles.push(Obstacle { x: SPAWN_X, vx: OBSTACLE_SPEED, height, color });
            proof {
                assert(obs_views(self.obstacles@) =~= obs_views(old(self).obstacles@).push(
                    spawned_obstacle(h as int, c as int),
                ));
            }
        }
        if t % RAMP_INTERVAL == 0 {
            self.difficulty = self.difficulty + DIFFICULTY_STEP;
            self.score = self.score + 1;
        }
        let hit = scan_collisions(&self.actor, &self.obstacles);
        let removed = advance_obstacles(&mut self.obstacles, self.difficulty);
        self.score = self.score + removed;
        self.actor.apply_physics();
        self.game_over = hit;
        proof {
            assert(self@ =~= tick_spec(old(self)@, g as int, h as int, c as int));
        }
    }

    /// Advance the simulation by exactly one tick, drawing from the
    /// session's own random source where the tick calls for it: a
    /// finished run is left untouched; otherwise the new state is the
    /// deterministic tick of the old one under some admissible draws.
    /// Every property that holds of the tick for all draws therefore
    /// holds of this call.
    pub fn tick(&mut self)
        requires
            old(self)@.wf(),
            old(self).tick_count < TICK_LIMIT,
        ensures
            old(self).game_over ==> *final(self) == *old(self),
            !old(self).game_over ==> exists|g: int, h: int, c: int|
                0 <= g < DRAW_ONE as int && 0 <= h < DRAW_ONE as int && 0 <= c < 3
                    && final(self)@ == tick_spec(old(self)@, g, h, c),
            final(self)@.wf(),
    {
        if self.game_over {
            return ;
        }
        let mut g: u64 = 0;
        let mut h: u64 = 0;
        let mut c: u64 = 0;
        let t = self.tick_count + 1;
        if t % SPAWN_INTERVAL == 0 {
            g = self.rng.draw_below(DRAW_ONE);
            assert(self.difficulty <= DIFFICULTY_LIMIT);
            assert(g * self.difficulty <= DRAW_ONE * DIFFICULTY_LIMIT) by (nonlinear_arith)
                requires
                    g < DRAW_ONE,
                    self.difficulty <= DIFFICULTY_LIMIT,
            ;
            if g * self.difficulty > SPAWN_GATE {
                h = self.rng.draw_below(DRAW_ONE);
                c = self.rng.draw_below(3);
            }
        }
        self.step(g, h, c);
    }

    /// Discard all mutable state and rebuild a fresh session around
    /// the same random source.
    pub fn reset(&mut self)
        ensures
            final(self)@ == initial_view(),
            final(self)@.wf(),
            final(self).rng == old(self).rng,
    {
        self.actor = Actor::new();
        self.obstacles = Vec::new();
        self.tick_count = 0;
        self.difficulty = DIFFICULTY_START;
        self.score = 0;
        self.game_over = false;
        proof {
            assert(self@ =~= initial_view());
        }
    }

    /// Apply one driver command: a jump is honored only while the run
    /// is live and the actor is grounded; a reset only after the run
    /// has ended; everything else is a silent no-op.
    pub fn handle_input(&mut self, cmd: Command)
        requires
            old(self)@.wf(),
        ensures
            final(self)@ == input_spec(old(self)@, cmd),
            final(self)@.wf(),
            final(self).rng == old(self).rng,
    {
        match cmd {
            Command::Jump => {
                if !self.game_over && self.actor.grounded {
                    self.actor.jump();
                }
            },
            Command::Reset => {
                if self.game_over {
                    self.reset();
                }
            },
            Command::Noop => {},
        }
        proof {
            assert(self@ =~= input_spec(old(self)@, cmd));
        }
    }

    /// The current score.
    pub fn score(&self) -> (r: u64)
        ensures
            r as int == self@.score,
    {
        self.score
    }

    /// Whether the run has ended.
    pub fn is_game_over(&self) -> (r: bool)
        ensures
            r == self@.game_over,
    {
        self.game_over
    }

    /// Ticks elapsed since the session was built or reset.
    pub fn ticks(&self) -> (r: u64)
        ensures
            r as int == self@.tick_count,
    {
        self.tick_count
    }

    /// The current difficulty multiplier, in hundredths.
    pub fn current_difficulty(&self) -> (r: u64)
        ensures
            r as int == self@.difficulty,
    {
        self.difficulty
    }

    /// The number of live obstacles.
    pub fn obstacle_count(&self) -> (r: usize)
        ensures
            r as int == self@.obstacles.len(),
    {
        self.obstacles.len()
    }

    /// The actor's position, for rendering.
    pub fn actor_position(&self) -> (p: (i64, i64))
        ensures
            p.0 as int == self@.actor.x,
            p.1 as int == self@.actor.y,
    {
        (self.actor.x, self.actor.y)
    }

    /// One live obstacle, for rendering.
    pub fn obstacle_at(&self, i: usize) -> (o: Obstacle)
        requires
            i < self@.obstacles.len(),
        ensures
            o@ == self@.obstacles[i as int],
    {
        self.obstacles[i]
    }
}

} // verus!
