//! Force-law and integration scenarios with exact fixed-point values
//! (1_000_000 sub-units per simulation unit).

use particle_life::config::{default_config, ParticleClass, FIX};
use particle_life::force::calculate_force;
use particle_life::particle::{Particle, Vec2};

fn at(x: i128, y: i128, class: ParticleClass) -> Particle {
    Particle {
        position: Vec2 { x, y },
        velocity: Vec2 { x: 0, y: 0 },
        particle_class: class,
    }
}

/// Two same-type particles with coefficient 0.9 at distance 100 (inside
/// the interaction range): each feels 0.9 / 100^2 * 10 = 0.0009 units of
/// force along the connecting line, pulling them together.
#[test]
fn attraction_same_type_distance_100() {
    let cfg = default_config();
    let p1 = at(0, 0, ParticleClass::Red);
    let p2 = at(100 * FIX, 0, ParticleClass::Red);
    let (f1, f2) = calculate_force(&p1, &p2, &cfg);
    // 0.0009 units = 900 sub-units, toward the other particle.
    assert_eq!(f1, Vec2 { x: 900, y: 0 });
    assert_eq!(f2, Vec2 { x: -900, y: 0 });
}

/// Two particles at distance 5 (inside the repulsion range): each feels
/// 0.05 / 5 * 10 = 0.1 units of force pushing it away, whatever the
/// types.
#[test]
fn repulsion_distance_5() {
    let cfg = default_config();
    let p1 = at(0, 0, ParticleClass::Red);
    let p2 = at(5 * FIX, 0, ParticleClass::Blue);
    let (f1, f2) = calculate_force(&p1, &p2, &cfg);
    // 0.1 units = 100_000 sub-units, apart.
    assert_eq!(f1, Vec2 { x: -100_000, y: 0 });
    assert_eq!(f2, Vec2 { x: 100_000, y: 0 });
}

/// The same repulsion holds for identical types: the short-range regime
/// ignores the matrix.
#[test]
fn repulsion_ignores_type() {
    let cfg = default_config();
    let p1 = at(0, 0, ParticleClass::Purple);
    let p2 = at(5 * FIX, 0, ParticleClass::Purple);
    let (f1, f2) = calculate_force(&p1, &p2, &cfg);
    assert_eq!(f1, Vec2 { x: -100_000, y: 0 });
    assert_eq!(f2, Vec2 { x: 100_000, y: 0 });
}

/// Beyond the interaction distance (500) there is no force at all.
#[test]
fn zero_force_beyond_interaction_distance() {
    let cfg = default_config();
    let p1 = at(0, 0, ParticleClass::Red);
    let p2 = at(600 * FIX, 0, ParticleClass::Blue);
    let (f1, f2) = calculate_force(&p1, &p2, &cfg);
    assert_eq!(f1, Vec2 { x: 0, y: 0 });
    assert_eq!(f2, Vec2 { x: 0, y: 0 });
}

/// Exactly at the interaction distance the force is already zero: the
/// mid-range regime is half-open.
#[test]
fn zero_force_at_interaction_distance() {
    let cfg = default_config();
    let p1 = at(0, 0, ParticleClass::Red);
    let p2 = at(500 * FIX, 0, ParticleClass::Red);
    let (f1, _f2) = calculate_force(&p1, &p2, &cfg);
    assert_eq!(f1, Vec2 { x: 0, y: 0 });
}

/// An asymmetric matrix entry gives asymmetric magnitudes: red feels
/// blue with -0.5, blue feels red with 0.4, so at distance 100 the
/// magnitudes are 500 and 400 sub-units, both along the same axis.
#[test]
fn asymmetric_matrix_asymmetric_magnitudes() {
    let cfg = default_config();
    let p1 = at(0, 0, ParticleClass::Red);
    let p2 = at(100 * FIX, 0, ParticleClass::Blue);
    let (f1, f2) = calculate_force(&p1, &p2, &cfg);
    // Red is pushed away (negative coefficient), magnitude 0.0005.
    assert_eq!(f1, Vec2 { x: -500, y: 0 });
    // Blue is pulled toward red (positive coefficient), magnitude 0.0004:
    // the reaction is not the negation of the action here.
    assert_eq!(f2, Vec2 { x: -400, y: 0 });
}

/// The mid-range force acts along the connecting axis in both
/// coordinates: a diagonal displacement gives equal components.
#[test]
fn interaction_force_along_diagonal() {
    let cfg = default_config();
    let p1 = at(0, 0, ParticleClass::Red);
    let p2 = at(100 * FIX, 100 * FIX, ParticleClass::Red);
    let (f1, f2) = calculate_force(&p1, &p2, &cfg);
    assert_eq!(f1.x, f1.y);
    assert!(f1.x > 0);
    assert_eq!(f2.x, f2.y);
    assert!(f2.x < 0);
}

/// A particle at the left edge moving left: one update damps the
/// velocity to -3 * 0.98 = -2.94, integrates to a negative position,
/// clamps it to exactly 0 and flips the damped velocity to +2.94.
#[test]
fn boundary_reflection_left_edge() {
    let cfg = default_config();
    let mut p = Particle {
        position: Vec2 { x: 0, y: 500 * FIX },
        velocity: Vec2 { x: -3 * FIX, y: 0 },
        particle_class: ParticleClass::Green,
    };
    p.update(&cfg);
    assert_eq!(p.position, Vec2 { x: 0, y: 500 * FIX });
    assert_eq!(p.velocity, Vec2 { x: 2_940_000, y: 0 });
}

/// A particle overshooting the right bound is clamped to
/// `width - size` and its damped velocity is negated.
#[test]
fn boundary_reflection_right_edge() {
    let cfg = default_config();
    let x_bound = cfg.width - cfg.particle_size;
    let mut p = Particle {
        position: Vec2 { x: x_bound, y: 500 * FIX },
        velocity: Vec2 { x: 3 * FIX, y: 0 },
        particle_class: ParticleClass::Green,
    };
    p.update(&cfg);
    assert_eq!(p.position.x, x_bound);
    assert_eq!(p.velocity, Vec2 { x: -2_940_000, y: 0 });
}

/// Interior motion with no applied force: each update multiplies the
/// velocity by 0.98 (truncating toward zero) and moves the position by
/// the damped velocity.
#[test]
fn damping_decay_two_steps() {
    let cfg = default_config();
    let mut p = Particle {
        position: Vec2 { x: 960 * FIX, y: 540 * FIX },
        velocity: Vec2 { x: 100, y: -100 },
        particle_class: ParticleClass::Orange,
    };
    p.update(&cfg);
    assert_eq!(p.velocity, Vec2 { x: 98, y: -98 });
    assert_eq!(p.position, Vec2 { x: 960 * FIX + 98, y: 540 * FIX - 98 });
    p.update(&cfg);
    // 98 * 98 / 100 truncates to 96 on both axes.
    assert_eq!(p.velocity, Vec2 { x: 96, y: -96 });
    assert_eq!(p.position, Vec2 { x: 960 * FIX + 194, y: 540 * FIX - 194 });
}

/// `apply_force` is plain accumulation into the velocity.
#[test]
fn apply_force_accumulates() {
    let mut p = Particle {
        position: Vec2 { x: 0, y: 0 },
        velocity: Vec2 { x: 10, y: 20 },
        particle_class: ParticleClass::Yellow,
    };
    p.apply_force(Vec2 { x: 5, y: -7 });
    p.apply_force(Vec2 { x: 1, y: 2 });
    assert_eq!(p.velocity, Vec2 { x: 16, y: 15 });
    assert_eq!(p.position, Vec2 { x: 0, y: 0 });
}
