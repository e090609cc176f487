//! Spawn gate, obstacle height and color derivation, and the seeded
//! random source.

use jump_boi::obstacle::Obstacle;
use jump_boi::obstacle::ObstacleColor;
use jump_boi::rng::RandomSource;
use jump_boi::GameSession;

#[test]
fn height_rounds_to_nearest_unit() {
    // The draw is a fraction of one in ten-thousandths, scaled to
    // [0, 24] and rounded to the nearest whole unit.
    assert_eq!(Obstacle::height_of(0), 0);
    assert_eq!(Obstacle::height_of(9999), 24);
    assert_eq!(Obstacle::height_of(5000), 12);
    // 24 * 0.0625 = 1.5 rounds up to 2; just under it rounds down.
    assert_eq!(Obstacle::height_of(625), 2);
    assert_eq!(Obstacle::height_of(624), 1);
}

#[test]
fn color_covers_the_palette() {
    assert_eq!(Obstacle::color_of(0), ObstacleColor::Red);
    assert_eq!(Obstacle::color_of(1), ObstacleColor::Yellow);
    assert_eq!(Obstacle::color_of(2), ObstacleColor::Blue);
}

#[test]
fn spawn_gate_boundary() {
    // While the difficulty multiplier is still at its start value,
    // a spawn happens only for a large enough gating draw. Walk to
    // the first eligible tick with small draws, then probe both
    // sides of the smallest spawning draw.
    let mut s = GameSession::new(20);
    for _ in 0..14 {
        s.step(0, 0, 0);
    }
    let mut at_gate = GameSession::new(20);
    at_gate.tick_count = s.tick_count;
    at_gate.step(9000, 5000, 1);
    assert_eq!(at_gate.obstacle_count(), 0);
    s.step(9001, 5000, 1);
    assert_eq!(s.obstacle_count(), 1);
    let o = s.obstacles[0];
    // Spawned at the right edge, and already scrolled once this tick.
    assert_eq!(o.x, 21000 - 100);
    assert_eq!(o.vx, 100);
    assert_eq!(o.height, 12);
    assert_eq!(o.color, ObstacleColor::Yellow);
}

#[test]
fn no_spawn_off_cadence() {
    // Even a passing draw spawns nothing between eligible ticks.
    let mut s = GameSession::new(21);
    s.step(9999, 5000, 1);
    assert_eq!(s.obstacle_count(), 0);
}

#[test]
fn spawned_heights_are_in_range_and_vary() {
    // Drawn heights stay within [0, 24] and actually vary: a source
    // that echoed its bound back would always yield the maximum.
    let mut rng = RandomSource::from_seed(7);
    let mut min = u64::MAX;
    let mut max = 0u64;
    for _ in 0..200 {
        let h = Obstacle::get_height(&mut rng);
        assert!(h <= 24);
        min = min.min(h);
        max = max.max(h);
    }
    assert!(min < max);
}

#[test]
fn equal_seeds_draw_equal_heights() {
    let mut a = RandomSource::from_seed(99);
    let mut b = RandomSource::from_seed(99);
    for _ in 0..50 {
        assert_eq!(Obstacle::get_height(&mut a), Obstacle::get_height(&mut b));
    }
}

#[test]
fn equal_seeds_play_equal_runs() {
    let mut a = GameSession::new(42);
    let mut b = GameSession::new(42);
    for _ in 0..2000 {
        a.tick();
        b.tick();
        assert_eq!(a.obstacles, b.obstacles);
        assert_eq!(a.score(), b.score());
    }
}
