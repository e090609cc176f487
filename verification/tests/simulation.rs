//! Session-level behavior: physics, scoring, the state machine, and
//! whole-run invariants under a seeded random source.

use jump_boi::obstacle::Obstacle;
use jump_boi::obstacle::ObstacleColor;
use jump_boi::Command;
use jump_boi::GameSession;

fn planted(x: i64, height: u64) -> Obstacle {
    Obstacle { x, vx: 100, height, color: ObstacleColor::Blue }
}

#[test]
fn jump_then_tick_leaves_the_ground() {
    // Grounded actor at y=24.00, obstacle far away at the right edge.
    let mut s = GameSession::new(1);
    s.obstacles = vec![planted(21000, 0)];
    s.handle_input(Command::Jump);
    assert_eq!(s.actor.vy, 280);
    assert!(!s.actor.grounded);
    s.tick();
    // Gravity first (2.80 -> 2.71), then integration: y = 26.71.
    assert_eq!(s.actor.y, 2671);
    assert!(s.actor.y > 2400);
    assert!(!s.actor.grounded);
    assert_eq!(s.actor.vy, 271);
}

#[test]
fn full_jump_arc_stays_above_ground_and_lands() {
    let mut s = GameSession::new(2);
    s.handle_input(Command::Jump);
    let mut last_vy = s.actor.vy;
    let mut landed = false;
    for _ in 0..200 {
        let airborne = !s.actor.grounded;
        s.tick();
        // Ground clamp: the observable position never undershoots.
        assert!(s.actor.y >= 2400);
        if airborne && !s.actor.grounded {
            // Gravity: velocity drops by exactly 0.09 per airborne tick.
            assert_eq!(s.actor.vy, last_vy - 9);
        }
        if s.actor.grounded {
            // Landing zeroes the velocity and pins y to the ground.
            assert_eq!(s.actor.vy, 0);
            assert_eq!(s.actor.y, 2400);
            landed = true;
            break;
        }
        last_vy = s.actor.vy;
    }
    assert!(landed);
}

#[test]
fn jump_is_ignored_midair() {
    let mut s = GameSession::new(3);
    s.handle_input(Command::Jump);
    s.tick();
    let (y, vy) = (s.actor.y, s.actor.vy);
    s.handle_input(Command::Jump);
    assert_eq!(s.actor.y, y);
    assert_eq!(s.actor.vy, vy);
    assert!(!s.actor.grounded);
}

#[test]
fn jump_is_ignored_after_game_over() {
    let mut s = GameSession::new(4);
    s.obstacles = vec![planted(2000, 10)];
    s.tick();
    assert!(s.is_game_over());
    let (y, vy, grounded) = (s.actor.y, s.actor.vy, s.actor.grounded);
    s.handle_input(Command::Jump);
    assert_eq!(s.actor.y, y);
    assert_eq!(s.actor.vy, vy);
    assert_eq!(s.actor.grounded, grounded);
}

#[test]
fn obstacle_leaves_at_the_left_edge_for_a_point() {
    // Obstacle at x=1.00 with speed 1.00 and difficulty 1.00.
    let mut s = GameSession::new(5);
    s.obstacles = vec![planted(100, 3)];
    s.tick();
    // One tick on: x = 0.00, still present, no point yet.
    assert_eq!(s.obstacle_count(), 1);
    assert_eq!(s.obstacles[0].x, 0);
    assert_eq!(s.score(), 0);
    s.tick();
    // The next tick would put it at -1.00: removed, one point.
    assert_eq!(s.obstacle_count(), 0);
    assert_eq!(s.score(), 1);
}

#[test]
fn ramp_scores_and_speeds_up_on_exact_cadence() {
    let mut s = GameSession::new(6);
    for i in 1u64..=250 {
        // Gate draw 0 never spawns, isolating the ramp cadence.
        s.step(0, 0, 0);
        assert_eq!(s.ticks(), i);
        assert_eq!(s.score(), i / 100);
        assert_eq!(s.current_difficulty(), 100 + 3 * (i / 100));
    }
}

#[test]
fn score_never_decreases() {
    let mut s = GameSession::new(7);
    let mut last = s.score();
    for i in 0..2000 {
        if i % 40 == 0 {
            s.handle_input(Command::Jump);
        }
        s.tick();
        assert!(s.score() >= last);
        last = s.score();
    }
}

#[test]
fn game_over_freezes_everything_until_reset() {
    let mut s = GameSession::new(8);
    s.obstacles = vec![planted(2000, 10), planted(9000, 4)];
    s.tick();
    assert!(s.is_game_over());
    let ticks = s.ticks();
    let score = s.score();
    let difficulty = s.current_difficulty();
    let actor = s.actor;
    let obstacles = s.obstacles.clone();
    for _ in 0..5 {
        s.tick();
        assert_eq!(s.ticks(), ticks);
        assert_eq!(s.score(), score);
        assert_eq!(s.current_difficulty(), difficulty);
        assert_eq!(s.actor, actor);
        assert_eq!(s.obstacles, obstacles);
    }
    s.handle_input(Command::Reset);
    assert!(!s.is_game_over());
    assert_eq!(s.ticks(), 0);
}

#[test]
fn reset_rebuilds_the_initial_state() {
    let mut s = GameSession::new(9);
    for _ in 0..321 {
        s.tick();
    }
    s.handle_input(Command::Jump);
    s.tick();
    s.reset();
    let fresh = GameSession::new(9);
    assert_eq!(s.actor, fresh.actor);
    assert_eq!(s.obstacles, fresh.obstacles);
    assert_eq!(s.ticks(), 0);
    assert_eq!(s.current_difficulty(), 100);
    assert_eq!(s.score(), 0);
    assert!(!s.is_game_over());
}

#[test]
fn reset_is_ignored_while_running() {
    let mut s = GameSession::new(10);
    for _ in 0..7 {
        s.tick();
    }
    let ticks = s.ticks();
    s.handle_input(Command::Reset);
    assert_eq!(s.ticks(), ticks);
}

#[test]
fn noop_changes_nothing() {
    let mut s = GameSession::new(11);
    for _ in 0..3 {
        s.tick();
    }
    let (ticks, score, actor) = (s.ticks(), s.score(), s.actor);
    s.handle_input(Command::Noop);
    assert_eq!(s.ticks(), ticks);
    assert_eq!(s.score(), score);
    assert_eq!(s.actor, actor);
}

#[test]
fn long_run_keeps_world_invariants() {
    let mut s = GameSession::new(12);
    for i in 0..5000 {
        if i % 25 == 0 {
            s.handle_input(Command::Jump);
        }
        s.tick();
        assert!(s.actor.y >= 2400);
        for o in &s.obstacles {
            assert!(o.x >= 0 && o.x <= 21000);
            assert!(o.height <= 24);
            assert_eq!(o.vx, 100);
        }
        if s.is_game_over() {
            s.handle_input(Command::Reset);
        }
    }
}
