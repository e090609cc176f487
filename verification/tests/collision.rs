//! Collision detection: boundary exclusivity and interior contact.

use jump_boi::actor::Actor;
use jump_boi::obstacle::Obstacle;
use jump_boi::obstacle::ObstacleColor;

fn actor_at(y: i64) -> Actor {
    Actor { x: 2000, y, vy: 0, grounded: y == 2400 }
}

fn obstacle_at(x: i64, height: u64) -> Obstacle {
    Obstacle { x, vx: 100, height, color: ObstacleColor::Red }
}

#[test]
fn zero_separation_collides() {
    // Separation 0 is inside both (-3, 3) and (-2, 2 + 10).
    let a = actor_at(2400);
    let o = obstacle_at(2000, 10);
    assert!(o.collided_with(&a));
}

#[test]
fn horizontal_boundary_is_exclusive() {
    let a = actor_at(2400);
    // Separation exactly +3.00 or -3.00 world units: no collision.
    assert!(!obstacle_at(2000 - 300, 10).collided_with(&a));
    assert!(!obstacle_at(2000 + 300, 10).collided_with(&a));
    // Strictly inside: collision.
    assert!(obstacle_at(2000 - 299, 10).collided_with(&a));
    assert!(obstacle_at(2000 + 299, 10).collided_with(&a));
}

#[test]
fn vertical_boundary_is_exclusive() {
    let o = obstacle_at(2000, 10);
    // Vertical separation exactly -2.00: no collision.
    assert!(!o.collided_with(&actor_at(2400 - 200)));
    assert!(o.collided_with(&actor_at(2400 - 199)));
    // Upper bound is 2.00 + height (10.00): exactly 12.00 is out.
    assert!(!o.collided_with(&actor_at(2400 + 1200)));
    assert!(o.collided_with(&actor_at(2400 + 1199)));
}

#[test]
fn taller_obstacles_reach_higher() {
    // A flat obstacle's lethal zone ends below 2.00; a tall one's
    // grows upward with its height, never downward.
    let flat = obstacle_at(2000, 0);
    let tall = obstacle_at(2000, 24);
    assert!(!flat.collided_with(&actor_at(2400 + 200)));
    assert!(tall.collided_with(&actor_at(2400 + 200)));
    assert!(tall.collided_with(&actor_at(2400 + 2599)));
    assert!(!tall.collided_with(&actor_at(2400 + 2600)));
    assert!(!tall.collided_with(&actor_at(2400 - 200)));
}

#[test]
fn detection_is_pure() {
    let a = actor_at(2400);
    let o = obstacle_at(2000, 10);
    let (a0, o0) = (a, o);
    let _ = o.collided_with(&a);
    let _ = o.collided_with(&a);
    assert_eq!(a, a0);
    assert_eq!(o, o0);
}
