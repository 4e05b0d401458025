//! Whole-step and population scenarios, plus the integer math helpers.

use particle_life::config::{default_config, ParticleClass, FIX};
use particle_life::math::{div_trunc, isqrt};
use particle_life::particle::{Particle, Vec2};
use particle_life::sim::{accumulate_forces, make_population, step};

fn at(x: i128, y: i128, class: ParticleClass) -> Particle {
    Particle {
        position: Vec2 { x, y },
        velocity: Vec2 { x: 0, y: 0 },
        particle_class: class,
    }
}

/// One whole step on two particles five units apart: each accumulates
/// the 0.1-unit repulsion, is damped to 0.098 units, and moves by that.
#[test]
fn step_two_repelling_particles() {
    let cfg = default_config();
    let mut particles = vec![
        at(500 * FIX, 500 * FIX, ParticleClass::Red),
        at(505 * FIX, 500 * FIX, ParticleClass::Blue),
    ];
    step(&mut particles, &cfg);
    // Force -0.1, damped: -100_000 * 98 / 100 = -98_000, and the mirror.
    assert_eq!(particles[0].velocity, Vec2 { x: -98_000, y: 0 });
    assert_eq!(particles[1].velocity, Vec2 { x: 98_000, y: 0 });
    assert_eq!(particles[0].position, Vec2 { x: 500 * FIX - 98_000, y: 500 * FIX });
    assert_eq!(particles[1].position, Vec2 { x: 505 * FIX + 98_000, y: 500 * FIX });
}

/// The forces of one step accumulate over all pairings: with three
/// collinear equidistant particles the middle one's contributions
/// cancel exactly.
#[test]
fn accumulate_forces_cancels_in_the_middle() {
    let cfg = default_config();
    let particles = vec![
        at(400 * FIX, 500 * FIX, ParticleClass::Red),
        at(500 * FIX, 500 * FIX, ParticleClass::Red),
        at(600 * FIX, 500 * FIX, ParticleClass::Red),
    ];
    let forces = accumulate_forces(&particles, &cfg);
    assert_eq!(forces.len(), 3);
    assert_eq!(forces[1], Vec2 { x: 0, y: 0 });
    // The outer two feel the near neighbour (900) and the far one (225):
    // 0.9 / 200^2 * 10 = 225 sub-units.
    assert_eq!(forces[0], Vec2 { x: 900 + 225, y: 0 });
    assert_eq!(forces[2], Vec2 { x: -900 - 225, y: 0 });
}

/// Coincident particles contribute no force: the degenerate pair is
/// skipped rather than producing an undefined direction.
#[test]
fn coincident_pair_contributes_nothing() {
    let cfg = default_config();
    let mut particles = vec![
        at(100 * FIX, 100 * FIX, ParticleClass::Red),
        at(100 * FIX, 100 * FIX, ParticleClass::Blue),
    ];
    step(&mut particles, &cfg);
    assert_eq!(particles[0].position, Vec2 { x: 100 * FIX, y: 100 * FIX });
    assert_eq!(particles[1].position, Vec2 { x: 100 * FIX, y: 100 * FIX });
    assert_eq!(particles[0].velocity, Vec2 { x: 0, y: 0 });
    assert_eq!(particles[1].velocity, Vec2 { x: 0, y: 0 });
}

/// A fresh population has the asked-for size, positions inside the
/// screen, and zero velocities.
#[test]
fn make_population_within_bounds() {
    let cfg = default_config();
    let particles = make_population(&cfg, 250);
    assert_eq!(particles.len(), 250);
    for p in &particles {
        assert!(0 <= p.position.x && p.position.x < cfg.width);
        assert!(0 <= p.position.y && p.position.y < cfg.height);
        assert_eq!(p.velocity, Vec2 { x: 0, y: 0 });
    }
}

/// A few steps on a random population keep every particle on the screen.
#[test]
fn steps_keep_population_on_screen() {
    let cfg = default_config();
    let mut particles = make_population(&cfg, 50);
    for _ in 0..5 {
        step(&mut particles, &cfg);
    }
    assert_eq!(particles.len(), 50);
    for p in &particles {
        assert!(0 <= p.position.x && p.position.x <= cfg.width - cfg.particle_size);
        assert!(0 <= p.position.y && p.position.y <= cfg.height - cfg.particle_size);
    }
}

/// The floor square root brackets its argument.
#[test]
fn isqrt_exact_values() {
    assert_eq!(isqrt(0), 0);
    assert_eq!(isqrt(1), 1);
    assert_eq!(isqrt(15), 3);
    assert_eq!(isqrt(16), 4);
    assert_eq!(isqrt(10_000_000_000_000_000), 100_000_000);
    assert_eq!(isqrt(u128::MAX), (1u128 << 64) - 1);
}

/// Division truncates toward zero on both signs.
#[test]
fn div_trunc_rounds_toward_zero() {
    assert_eq!(div_trunc(7, 2), 3);
    assert_eq!(div_trunc(-7, 2), -3);
    assert_eq!(div_trunc(0, 5), 0);
    assert_eq!(div_trunc(-294, 100), -2);
}

/// The fail-fast validator accepts the default configuration and
/// rejects a matrix of the wrong dimension or with an out-of-range
/// coefficient.
#[test]
fn validate_checks_matrix_shape_and_bounds() {
    let cfg = default_config();
    assert!(cfg.validate());

    let mut truncated = default_config();
    truncated.matrix.coeffs.pop();
    assert!(!truncated.validate());

    let mut oversized = default_config();
    oversized.matrix.coeffs[7] = 2_000_000_000;
    assert!(!oversized.validate());

    let mut no_decay = default_config();
    no_decay.damping_num = no_decay.damping_den;
    assert!(!no_decay.validate());
}

/// The default configuration carries the documented parameters.
#[test]
fn default_config_values() {
    let cfg = default_config();
    assert_eq!(cfg.width, 1920 * FIX);
    assert_eq!(cfg.height, 1080 * FIX);
    assert_eq!(cfg.particle_size, 10 * FIX);
    assert_eq!(cfg.interaction_distance, 500 * FIX);
    assert_eq!(cfg.repulsion_distance, 20 * FIX);
    assert_eq!(cfg.repulsion_strength, 50_000);
    assert_eq!(cfg.force_scaling, 10 * FIX);
    assert_eq!(cfg.damping_num, 98);
    assert_eq!(cfg.damping_den, 100);
    assert_eq!(
        cfg.matrix.coefficient(ParticleClass::Red, ParticleClass::Blue),
        -500_000
    );
    assert_eq!(
        cfg.matrix.coefficient(ParticleClass::Blue, ParticleClass::Red),
        400_000
    );
}
