//! Obstacles: scrolling ground-anchored hazards, their collision test,
//! and the spawn-time height and color derivations.

use vstd::prelude::*;

use crate::actor::Actor;
use crate::actor::ActorView;
use crate::config::COLLIDE_X;
use crate::config::COLLIDE_Y;
use crate::config::DRAW_ONE;
use crate::config::GROUND_Y;
use crate::config::MAX_HEIGHT;
use crate::config::OBSTACLE_SPEED;
use crate::config::SPAWN_X;
use crate::rng::RandomSource;

verus! {

/// The palette an obstacle's color is drawn from, uniformly at spawn.
#[derive(Clone, Copy, Debug, PartialEq, Eq, Structural)]
pub enum ObstacleColor {
    Red,
    Yellow,
    Blue,
}

/// A single scrolling hazard. Its base sits on the ground; `height`
/// (in whole world units) sets how far its lethal zone reaches upward.
/// `x` and `vx` are in centiunits.
#[derive(Clone, Copy, Debug, PartialEq, Eq, Structural)]
pub struct Obstacle {
    pub x: i64,
    pub vx: i64,
    pub height: u64,
    pub color: ObstacleColor,
}

/// The mathematical image of an [`Obstacle`].
#[verifier::ext_equal]
pub ghost struct ObstacleView {
    pub x: int,
    pub vx: int,
    pub height: int,
    pub color: ObstacleColor,
}

impl View for Obstacle {
    type V = ObstacleView;

    open spec fn view(&self) -> ObstacleView {
        ObstacleView {
            x: self.x as int,
            vx: self.vx as int,
            height: self.height as int,
            color: self.color,
        }
    }
}

impl ObstacleView {
    /// A live obstacle sits inside the playfield, moves left at the
    /// fixed pre-scaling speed, and has a height within the palette of
    /// spawnable heights.
    pub open spec fn wf(self) -> bool {
        &&& 0 <= self.x <= SPAWN_X as int
        &&& self.vx == OBSTACLE_SPEED as int
        &&& 0 <= self.height <= MAX_HEIGHT as int
    }
}

/// Contact between the actor and an obstacle: the horizontal
/// separation lies strictly inside (-3.00, 3.00) and the vertical
/// separation above the obstacle's ground-level base lies strictly
/// inside (-2.00, 2.00 + height). Both bounds are exclusive, so exact
/// boundary contact does not collide; the vertical window grows with
/// the obstacle's height, upward only.
pub open spec fn collides(a: ActorView, o: ObstacleView) -> bool {
    let xdiff = a.x - o.x;
    let ydiff = a.y - GROUND_Y as int;
    &&& -(COLLIDE_X as int) < xdiff < COLLIDE_X as int
    &&& -(COLLIDE_Y as int) < ydiff < COLLIDE_Y as int + 100 * o.height
}

/// Height of a freshly spawned obstacle, from a uniform draw in
/// [0, DRAW_ONE): the fraction is scaled to [0, 24] and rounded to the
/// nearest whole unit.
pub open spec fn height_from_draw(h: int) -> int {
    (MAX_HEIGHT as int * h + DRAW_ONE as int / 2) / DRAW_ONE as int
}

/// Color of a freshly spawned obstacle, from a uniform draw in [0, 3).
pub open spec fn color_from_draw(c: int) -> ObstacleColor {
    if c == 0 {
        ObstacleColor::Red
    } else if c == 1 {
        ObstacleColor::Yellow
    } else {
        ObstacleColor::Blue
    }
}

/// The view of a freshly spawned obstacle: it enters at the right edge
/// of the playfield at the fixed pre-scaling speed.
pub open spec fn spawned_obstacle(h: int, c: int) -> ObstacleView {
    ObstacleView {
        x: SPAWN_X as int,
        vx: OBSTACLE_SPEED as int,
        height: height_from_draw(h),
        color: color_from_draw(c),
    }
}

impl Obstacle {
    /// Whether this obstacle is in contact with the actor. A pure
    /// query: neither body is changed. Widened arithmetic makes the
    /// test total, with no demand on the caller.
    pub fn collided_with(&self, player: &Actor) -> (r: bool)
        ensures
            r == collides(player@, self@),
    {
        let xdiff: i128 = player.x as i128 - self.x as i128;
        let ydiff: i128 = player.y as i128 - GROUND_Y as i128;
        let xw: i128 = COLLIDE_X as i128;
        let yw: i128 = COLLIDE_Y as i128;
        -xw < xdiff && xdiff < xw && -yw < ydiff && ydiff < yw + 100 * self.height as i128
    }

    /// Turn a uniform draw into a spawn height: the rounded-to-nearest
    /// scaling of the fraction to [0, 24].
    pub fn height_of(h: u64) -> (r: u64)
        requires
            h < DRAW_ONE,
        ensures
            r as int == height_from_draw(h as int),
            r <= MAX_HEIGHT,
    {
        (MAX_HEIGHT * h + DRAW_ONE / 2) / DRAW_ONE
    }

    /// Draw a spawn height from the injected random source: some
    /// uniform fraction scaled and rounded into [0, 24].
    pub fn get_height(rng: &mut RandomSource) -> (r: u64)
        ensures
            r <= MAX_HEIGHT,
            exists|d: int| 0 <= d < DRAW_ONE as int && r as int == height_from_draw(d),
    {
        let d = rng.draw_below(DRAW_ONE);
        Obstacle::height_of(d)
    }

    /// Turn a uniform draw in [0, 3) into a palette color.
    pub fn color_of(c: u64) -> (r: ObstacleColor)
        ensures
            r == color_from_draw(c as int),
    {
        if c == 0 {
            ObstacleColor::Red
        } else if c == 1 {
            ObstacleColor::Yellow
        } else {
            ObstacleColor::Blue
        }
    }
}

} // verus!
