//! The per-step driver: a two-pass scheme that first accumulates, for
//! every particle, the forces from all its pairings, and only then runs
//! every particle's integration step. The two passes keep the step
//! deterministic: no velocity is read and written in the same pass.
//!
//! Coincident particles are the one degenerate case of the force law
//! (direction undefined); the driver's policy is explicit: such a pair
//! contributes no force.

use crate::config::{
    ParticleClass, SimConfig, FORCE_COMP_BOUND, FORCE_TOTAL_BOUND, MAX_POPULATION, TYPE_COUNT,
};
use crate::force::{calculate_force, force_pair_spec};
use crate::particle::{update_spec, Particle, Vec2};
use crate::rng::random_below;
use vstd::prelude::*;

verus! {

/// What one pairing adds to the force on `a`: nothing for a coincident
/// pair, else the first half of the force pair.
pub open spec fn pair_contribution(a: Particle, b: Particle, cfg: SimConfig) -> (int, int) {
    if a.position == b.position {
        (0, 0)
    } else {
        let fp = force_pair_spec(a, b, cfg);
        (fp.0.x as int, fp.0.y as int)
    }
}

/// Force accumulated on particle `i` from its pairings with the first `n`
/// particles (itself excluded), as exact integers.
pub open spec fn total_force_upto(ps: Seq<Particle>, i: int, n: int, cfg: SimConfig) -> (int, int)
    decreases n,
{
    if n <= 0 {
        (0, 0)
    } else {
        let rest = total_force_upto(ps, i, n - 1, cfg);
        if n - 1 == i {
            rest
        } else {
            let c = pair_contribution(ps[i], ps[n - 1], cfg);
            (rest.0 + c.0, rest.1 + c.1)
        }
    }
}

/// Force accumulated on particle `i` from all its pairings.
pub open spec fn total_force(ps: Seq<Particle>, i: int, cfg: SimConfig) -> (int, int) {
    total_force_upto(ps, i, ps.len() as int, cfg)
}

/// Particle `i` after one whole step: its accumulated force added to its
/// velocity, then one integration step.
pub open spec fn step_particle_spec(ps: Seq<Particle>, i: int, cfg: SimConfig) -> Particle {
    let f = total_force(ps, i, cfg);
    let pushed = Particle {
        position: ps[i].position,
        velocity: Vec2 { x: (ps[i].velocity.x + f.0) as i128, y: (ps[i].velocity.y + f.1) as i128 },
        particle_class: ps[i].particle_class,
    };
    update_spec(pushed, cfg)
}

/// First pass: the force every particle accumulates from all its
/// pairings, exactly as `total_force` states it, each component within
/// `FORCE_TOTAL_BOUND`.
pub fn accumulate_forces(particles: &Vec<Particle>, cfg: &SimConfig) -> (forces: Vec<Vec2>)
    requires
        cfg.wf(),
        particles@.len() <= MAX_POPULATION,
        forall|k: int| 0 <= k < particles@.len() ==> (#[trigger] particles@[k]).wf(*cfg),
    ensures
        forces@.len() == particles@.len(),
        forall|k: int|
            0 <= k < particles@.len() ==> (#[trigger] forces@[k]).x == total_force(
                particles@,
                k,
                *cfg,
            ).0 && forces@[k].y == total_force(particles@, k, *cfg).1,
        forall|k: int|
            0 <= k < particles@.len() ==> -FORCE_TOTAL_BOUND <= (#[trigger] forces@[k]).x
                <= FORCE_TOTAL_BOUND && -FORCE_TOTAL_BOUND <= forces@[k].y <= FORCE_TOTAL_BOUND,
{
    let n = particles.len();
    let mut forces: Vec<Vec2> = Vec::new();
    let mut i: usize = 0;
    while i < n
        invariant
            cfg.wf(),
            n == particles@.len(),
            n <= MAX_POPULATION,
            forall|k: int| 0 <= k < particles@.len() ==> (#[trigger] particles@[k]).wf(*cfg),
            i <= n,
            forces@.len() == i,
            forall|k: int|
                0 <= k < i ==> (#[trigger] forces@[k]).x == total_force(particles@, k, *cfg).0
                    && forces@[k].y == total_force(particles@, k, *cfg).1,
            forall|k: int|
                0 <= k < i ==> -FORCE_TOTAL_BOUND <= (#[trigger] forces@[k]).x
                    <= FORCE_TOTAL_BOUND && -FORCE_TOTAL_BOUND <= forces@[k].y
                    <= FORCE_TOTAL_BOUND,
        decreases n - i,
    {
        let mut acc = Vec2::zero();
        let mut j: usize = 0;
        while j < n
            invariant
                cfg.wf(),
                n == particles@.len(),
                n <= MAX_POPULATION,
                forall|k: int| 0 <= k < particles@.len() ==> (#[trigger] particles@[k]).wf(*cfg),
                i < n,
                j <= n,
                acc.x == total_force_upto(particles@, i as int, j as int, *cfg).0,
                acc.y == total_force_upto(particles@, i as int, j as int, *cfg).1,
                -(j as i128) * FORCE_COMP_BOUND <= acc.x <= (j as i128) * FORCE_COMP_BOUND,
                -(j as i128) * FORCE_COMP_BOUND <= acc.y <= (j as i128) * FORCE_COMP_BOUND,
            decreases n - j,
        {
            if j != i {
                let pi = particles[i];
                let pj = particles[j];
                if !(pi.position.x == pj.position.x && pi.position.y == pj.position.y) {
                    let fp = calculate_force(&pi, &pj, cfg);
                    acc = Vec2 { x: acc.x + fp.0.x, y: acc.y + fp.0.y };
                } else {
                    assert(pi.position == pj.position);
                }
            }
            j = j + 1;
        }
        forces.push(acc);
        i = i + 1;
    }
    forces
}

/// One whole simulation step: every particle accumulates the forces from
/// all its pairings (first pass), then every particle integrates once
/// (second pass). Each particle ends exactly where `step_particle_spec`
/// puts it, inside the screen rectangle.
pub fn step(particles: &mut Vec<Particle>, cfg: &SimConfig)
    requires
        cfg.wf(),
        old(particles)@.len() <= MAX_POPULATION,
        forall|k: int| 0 <= k < old(particles)@.len() ==> (#[trigger] old(particles)@[k]).wf(*cfg),
    ensures
        final(particles)@.len() == old(particles)@.len(),
        forall|k: int|
            0 <= k < old(particles)@.len() ==> #[trigger] final(particles)@[k]
                == step_particle_spec(old(particles)@, k, *cfg),
        forall|k: int|
            0 <= k < old(particles)@.len() ==> (#[trigger] final(particles)@[k]).wf(*cfg)
                && 0 <= final(particles)@[k].position.x <= cfg.x_bound()
                && 0 <= final(particles)@[k].position.y <= cfg.y_bound(),
{
    let ghost ps0 = particles@;
    let forces = accumulate_forces(particles, cfg);
    let n = particles.len();
    let mut i: usize = 0;
    while i < n
        invariant
            cfg.wf(),
            n == particles@.len(),
            particles@.len() == ps0.len(),
            ps0.len() <= MAX_POPULATION,
            forall|k: int| 0 <= k < ps0.len() ==> (#[trigger] ps0[k]).wf(*cfg),
            forces@.len() == ps0.len(),
            forall|k: int|
                0 <= k < ps0.len() ==> (#[trigger] forces@[k]).x == total_force(ps0, k, *cfg).0
                    && forces@[k].y == total_force(ps0, k, *cfg).1,
            forall|k: int|
                0 <= k < ps0.len() ==> -FORCE_TOTAL_BOUND <= (#[trigger] forces@[k]).x
                    <= FORCE_TOTAL_BOUND && -FORCE_TOTAL_BOUND <= forces@[k].y
                    <= FORCE_TOTAL_BOUND,
            i <= n,
            forall|k: int| i <= k < ps0.len() ==> #[trigger] particles@[k] == ps0[k],
            forall|k: int|
                0 <= k < i ==> #[trigger] particles@[k] == step_particle_spec(ps0, k, *cfg),
            forall|k: int|
                0 <= k < i ==> (#[trigger] particles@[k]).wf(*cfg) && 0 <= particles@[k].position.x
                    <= cfg.x_bound() && 0 <= particles@[k].position.y <= cfg.y_bound(),
        decreases n - i,
    {
        let mut p = particles[i];
        p.apply_force(forces[i]);
        p.update(cfg);
        particles.set(i, p);
        i = i + 1;
    }
}

/// A fresh population: `count` particles, each with a uniformly random
/// position inside the screen rectangle, zero velocity, and a uniformly
/// random type.
pub fn make_population(cfg: &SimConfig, count: usize) -> (particles: Vec<Particle>)
    requires
        cfg.wf(),
        count <= MAX_POPULATION,
    ensures
        particles@.len() == count,
        forall|k: int| 0 <= k < count ==> (#[trigger] particles@[k]).wf(*cfg),
        forall|k: int|
            0 <= k < count ==> (#[trigger] particles@[k]).velocity.x == 0
                && particles@[k].velocity.y == 0,
{
    let mut particles: Vec<Particle> = Vec::new();
    let mut i: usize = 0;
    while i < count
        invariant
            cfg.wf(),
            count <= MAX_POPULATION,
            i <= count,
            particles@.len() == i,
            forall|k: int| 0 <= k < i ==> (#[trigger] particles@[k]).wf(*cfg),
            forall|k: int|
                0 <= k < i ==> (#[trigger] particles@[k]).velocity.x == 0
                    && particles@[k].velocity.y == 0,
        decreases count - i,
    {
        let class = ParticleClass::from_index(random_below(TYPE_COUNT as u64) as usize);
        particles.push(Particle::new(cfg, class));
        i = i + 1;
    }
    particles
}

} // verus!
