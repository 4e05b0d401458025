//! One particle's state and its per-step integration: damp the velocity,
//! add it to the position, and reflect elastically off the rectangle's
//! edges. The exact order — damp, integrate, reflect — is part of the
//! contract, because the reflected velocity is the already-damped one.

use crate::config::{ParticleClass, SimConfig, FORCE_TOTAL_BOUND, VEL_BOUND};
use crate::math::{div_trunc, div_trunc_spec, lemma_div_trunc_bound};
use crate::rng::random_below;
use vstd::prelude::*;

verus! {

/// A two-dimensional vector in fixed-point sub-units.
#[derive(Clone, Copy, PartialEq, Eq, Structural, Debug)]
pub struct Vec2 {
    pub x: i128,
    pub y: i128,
}

impl Vec2 {
    /// The zero vector.
    pub fn zero() -> (r: Vec2)
        ensures
            r.x == 0,
            r.y == 0,
    {
        Vec2 { x: 0, y: 0 }
    }
}

/// Velocity after one step of damping: `v * num / den`, truncated toward
/// zero.
pub open spec fn damp_spec(v: int, num: int, den: int) -> int
    recommends
        den >= 1,
{
    div_trunc_spec(v * num, den)
}

/// One axis of the boundary policy, applied to the freshly integrated
/// position `p` with (damped) velocity `v`: clamp at `0` and negate the
/// velocity, then clamp at `bound` and negate again — two independent
/// checks, in that order, exactly as the integrator performs them.
pub open spec fn reflect_axis_spec(p: int, v: int, bound: int) -> (int, int) {
    let low = if p <= 0 {
        (0int, -v)
    } else {
        (p, v)
    };
    if low.0 >= bound {
        (bound, -low.1)
    } else {
        low
    }
}

/// Position, velocity and type of one particle.
#[derive(Clone, Copy, PartialEq, Eq, Structural, Debug)]
pub struct Particle {
    pub position: Vec2,
    pub velocity: Vec2,
    pub particle_class: ParticleClass,
}

/// The whole of one `update` call: damp both velocity axes, integrate the
/// position, then reflect each axis at its bounds.
pub open spec fn update_spec(p: Particle, cfg: SimConfig) -> Particle {
    let vx = damp_spec(p.velocity.x as int, cfg.damping_num as int, cfg.damping_den as int);
    let vy = damp_spec(p.velocity.y as int, cfg.damping_num as int, cfg.damping_den as int);
    let rx = reflect_axis_spec(p.position.x + vx, vx, cfg.x_bound());
    let ry = reflect_axis_spec(p.position.y + vy, vy, cfg.y_bound());
    Particle {
        position: Vec2 { x: rx.0 as i128, y: ry.0 as i128 },
        velocity: Vec2 { x: rx.1 as i128, y: ry.1 as i128 },
        particle_class: p.particle_class,
    }
}

impl Particle {
    /// Positions on the screen and velocities within the machine bound the
    /// step functions maintain.
    pub open spec fn wf(self, cfg: SimConfig) -> bool {
        &&& 0 <= self.position.x <= cfg.width
        &&& 0 <= self.position.y <= cfg.height
        &&& -VEL_BOUND <= self.velocity.x <= VEL_BOUND
        &&& -VEL_BOUND <= self.velocity.y <= VEL_BOUND
    }

    /// A fresh particle of class `particle_class`: uniformly random
    /// position inside the screen rectangle and zero velocity.
    pub fn new(cfg: &SimConfig, particle_class: ParticleClass) -> (p: Particle)
        requires
            cfg.wf(),
        ensures
            p.wf(*cfg),
            0 <= p.position.x < cfg.width,
            0 <= p.position.y < cfg.height,
            p.velocity.x == 0,
            p.velocity.y == 0,
            p.particle_class == particle_class,
    {
        let x = random_below(cfg.width as u64);
        let y = random_below(cfg.height as u64);
        Particle {
            position: Vec2 { x: x as i128, y: y as i128 },
            velocity: Vec2 { x: 0, y: 0 },
            particle_class,
        }
    }

    /// Accumulates `force` into the velocity, component-wise. The caller
    /// keeps the sum within the machine range; the step driver's bounds
    /// do.
    pub fn apply_force(&mut self, force: Vec2)
        requires
            i128::MIN < old(self).velocity.x + force.x < i128::MAX,
            i128::MIN < old(self).velocity.y + force.y < i128::MAX,
        ensures
            final(self).velocity.x == old(self).velocity.x + force.x,
            final(self).velocity.y == old(self).velocity.y + force.y,
            final(self).position == old(self).position,
            final(self).particle_class == old(self).particle_class,
    {
        self.velocity.x = self.velocity.x + force.x;
        self.velocity.y = self.velocity.y + force.y;
    }

    /// One integration step: damp the velocity by `num / den`, add it to
    /// the position, and reflect off the rectangle `[0, width - size] x
    /// [0, height - size]`, negating the (already damped) velocity on each
    /// axis that hit a bound.
    pub fn update(&mut self, cfg: &SimConfig)
        requires
            cfg.wf(),
            0 <= old(self).position.x <= cfg.width,
            0 <= old(self).position.y <= cfg.height,
            -(VEL_BOUND + FORCE_TOTAL_BOUND) <= old(self).velocity.x <= VEL_BOUND
                + FORCE_TOTAL_BOUND,
            -(VEL_BOUND + FORCE_TOTAL_BOUND) <= old(self).velocity.y <= VEL_BOUND
                + FORCE_TOTAL_BOUND,
        ensures
            *final(self) == update_spec(*old(self), *cfg),
            final(self).wf(*cfg),
            0 <= final(self).position.x <= cfg.x_bound(),
            0 <= final(self).position.y <= cfg.y_bound(),
    {
        proof {
            lemma_vel_bound_preserved(old(self).velocity.x as int, cfg.damping_num as int,
                cfg.damping_den as int);
            lemma_vel_bound_preserved(old(self).velocity.y as int, cfg.damping_num as int,
                cfg.damping_den as int);
        }
        let vx = div_trunc(self.velocity.x * cfg.damping_num, cfg.damping_den);
        let vy = div_trunc(self.velocity.y * cfg.damping_num, cfg.damping_den);
        let mut px = self.position.x + vx;
        let mut py = self.position.y + vy;
        let mut wx = vx;
        let mut wy = vy;
        let xb = cfg.width - cfg.particle_size;
        let yb = cfg.height - cfg.particle_size;
        if px <= 0 {
            px = 0;
            wx = -wx;
        }
        if px >= xb {
            px = xb;
            wx = -wx;
        }
        if py <= 0 {
            py = 0;
            wy = -wy;
        }
        if py >= yb {
            py = yb;
            wy = -wy;
        }
        self.position = Vec2 { x: px, y: py };
        self.velocity = Vec2 { x: wx, y: wy };
    }
}

/// `b` to the power of `e`.
pub open spec fn pow_nat(b: int, e: nat) -> int
    decreases e,
{
    if e == 0 {
        1
    } else {
        b * pow_nat(b, (e - 1) as nat)
    }
}

/// Velocity component after `k` successive damping steps.
pub open spec fn damp_iter(k: nat, v: int, num: int, den: int) -> int
    decreases k,
{
    if k == 0 {
        v
    } else {
        damp_spec(damp_iter((k - 1) as nat, v, num, den), num, den)
    }
}

/// The particle after `k` successive `update` calls with no force applied
/// in between.
pub open spec fn update_iter(k: nat, p: Particle, cfg: SimConfig) -> Particle
    decreases k,
{
    if k == 0 {
        p
    } else {
        update_spec(update_iter((k - 1) as nat, p, cfg), cfg)
    }
}

/// The next update moves the particle without touching either bound: the
/// damped velocity lands the position strictly inside the rectangle.
pub open spec fn interior_step(p: Particle, cfg: SimConfig) -> bool {
    let vx = damp_spec(p.velocity.x as int, cfg.damping_num as int, cfg.damping_den as int);
    let vy = damp_spec(p.velocity.y as int, cfg.damping_num as int, cfg.damping_den as int);
    &&& 0 < p.position.x + vx < cfg.x_bound()
    &&& 0 < p.position.y + vy < cfg.y_bound()
}

/// One update keeps a particle well-formed: the damped velocity stays
/// bounded and the reflected position stays on the screen.
pub proof fn lemma_update_spec_wf(p: Particle, cfg: SimConfig)
    requires
        cfg.wf(),
        p.wf(cfg),
    ensures
        update_spec(p, cfg).wf(cfg),
        update_spec(p, cfg).particle_class == p.particle_class,
{
    lemma_vel_bound_preserved(p.velocity.x as int, cfg.damping_num as int, cfg.damping_den as int);
    lemma_vel_bound_preserved(p.velocity.y as int, cfg.damping_num as int, cfg.damping_den as int);
}

/// Boundary reflection at the left edge: when the integrated position
/// lands at or below zero, the update leaves the particle exactly at
/// zero and flips the sign of its (already damped) horizontal velocity,
/// magnitude unchanged.
pub proof fn law_boundary_reflection_low_x(p: Particle, cfg: SimConfig)
    requires
        cfg.wf(),
        p.wf(cfg),
        p.position.x + damp_spec(p.velocity.x as int, cfg.damping_num as int, cfg.damping_den as int)
            <= 0,
    ensures
        update_spec(p, cfg).position.x == 0,
        update_spec(p, cfg).velocity.x == -damp_spec(
            p.velocity.x as int,
            cfg.damping_num as int,
            cfg.damping_den as int,
        ),
{
    lemma_vel_bound_preserved(p.velocity.x as int, cfg.damping_num as int, cfg.damping_den as int);
}

/// Boundary reflection at the right edge: when the integrated position
/// reaches the bound `width - size`, the update clamps the particle to
/// that bound and flips the sign of its damped horizontal velocity.
pub proof fn law_boundary_reflection_high_x(p: Particle, cfg: SimConfig)
    requires
        cfg.wf(),
        p.wf(cfg),
        p.position.x + damp_spec(p.velocity.x as int, cfg.damping_num as int, cfg.damping_den as int)
            >= cfg.x_bound(),
    ensures
        update_spec(p, cfg).position.x == cfg.x_bound(),
        update_spec(p, cfg).velocity.x == -damp_spec(
            p.velocity.x as int,
            cfg.damping_num as int,
            cfg.damping_den as int,
        ),
{
    lemma_vel_bound_preserved(p.velocity.x as int, cfg.damping_num as int, cfg.damping_den as int);
}

/// With no force applied, `k` successive updates that never touch a bound
/// damp each velocity component `k` times and nothing else: the velocity
/// after the run is exactly the `k`-fold damped one.
pub proof fn law_velocity_decay(k: nat, p: Particle, cfg: SimConfig)
    requires
        cfg.wf(),
        p.wf(cfg),
        forall|j: nat| j < k ==> interior_step(#[trigger] update_iter(j, p, cfg), cfg),
    ensures
        update_iter(k, p, cfg).wf(cfg),
        update_iter(k, p, cfg).velocity.x == damp_iter(
            k,
            p.velocity.x as int,
            cfg.damping_num as int,
            cfg.damping_den as int,
        ),
        update_iter(k, p, cfg).velocity.y == damp_iter(
            k,
            p.velocity.y as int,
            cfg.damping_num as int,
            cfg.damping_den as int,
        ),
    decreases k,
{
    if k > 0 {
        let km1 = (k - 1) as nat;
        law_velocity_decay(km1, p, cfg);
        let q = update_iter(km1, p, cfg);
        assert(interior_step(q, cfg));
        lemma_update_spec_wf(q, cfg);
        lemma_vel_bound_preserved(
            q.velocity.x as int,
            cfg.damping_num as int,
            cfg.damping_den as int,
        );
        lemma_vel_bound_preserved(
            q.velocity.y as int,
            cfg.damping_num as int,
            cfg.damping_den as int,
        );
    }
}

/// The truncated damping recurrence tracks the exact geometric decay
/// `v * (num / den)^k` to within `k`: after `k` steps the velocity
/// magnitude `d` satisfies `v * num^k - k * den^k <= d * den^k
/// <= v * num^k`, and it never grows.
pub proof fn law_damping_geometric(k: nat, v: int, num: int, den: int)
    requires
        0 <= v,
        1 <= den,
        0 <= num <= den,
    ensures
        0 <= damp_iter(k, v, num, den) <= v,
        damp_iter(k, v, num, den) * pow_nat(den, k) <= v * pow_nat(num, k),
        v * pow_nat(num, k) <= (damp_iter(k, v, num, den) + k) * pow_nat(den, k),
    decreases k,
{
    if k == 0 {
    } else {
        let km1 = (k - 1) as nat;
        law_damping_geometric(km1, v, num, den);
        let e0 = damp_iter(km1, v, num, den);
        let e1 = damp_iter(k, v, num, den);
        let pd = pow_nat(den, km1);
        let pn = pow_nat(num, km1);
        lemma_pow_nat_nonneg(den, km1);
        lemma_pow_nat_nonneg(num, km1);
        assert(e1 == div_trunc_spec(e0 * num, den));
        assert(e0 * num >= 0) by (nonlinear_arith)
            requires
                e0 >= 0,
                num >= 0,
        ;
        vstd::arithmetic::div_mod::lemma_fundamental_div_mod(e0 * num, den);
        vstd::arithmetic::div_mod::lemma_mod_bound(e0 * num, den);
        assert(e1 * den <= e0 * num < (e1 + 1) * den) by (nonlinear_arith)
            requires
                e0 * num == den * e1 + (e0 * num) % den,
                0 <= (e0 * num) % den < den,
        ;
        assert(e0 * num <= e0 * den) by (nonlinear_arith)
            requires
                0 <= e0,
                num <= den,
        ;
        assert(0 <= e1 <= e0) by (nonlinear_arith)
            requires
                e1 * den <= e0 * num,
                e0 * num <= e0 * den,
                0 <= e0,
                0 <= num <= den,
                1 <= den,
                e1 == div_trunc_spec(e0 * num, den),
                e0 * num >= 0,
                e0 * num == den * e1 + (e0 * num) % den,
                0 <= (e0 * num) % den,
        ;
        assert(pow_nat(den, k) == den * pd && pow_nat(num, k) == num * pn);
        // Upper bound: e1 * den^k <= (e0 * num) * den^(k-1) <= v * num^k.
        assert(e1 * (den * pd) <= (e0 * num) * pd) by (nonlinear_arith)
            requires
                e1 * den <= e0 * num,
                pd >= 0,
        ;
        assert((e0 * num) * pd == num * (e0 * pd)) by (nonlinear_arith);
        assert(num * (e0 * pd) <= num * (v * pn)) by (nonlinear_arith)
            requires
                e0 * pd <= v * pn,
                num >= 0,
        ;
        assert(num * (v * pn) == v * (num * pn)) by (nonlinear_arith);
        // Lower bound: v * num^k <= ((e0 + k - 1) * num) * den^(k-1)
        //            <= ((e1 + k) * den) * den^(k-1).
        assert(v * (num * pn) == (v * pn) * num) by (nonlinear_arith);
        assert((v * pn) * num <= ((e0 + km1) * pd) * num) by (nonlinear_arith)
            requires
                v * pn <= (e0 + km1) * pd,
                num >= 0,
        ;
        assert(((e0 + km1) * pd) * num == ((e0 + km1) * num) * pd) by (nonlinear_arith);
        assert((e0 + km1) * num <= (e1 + k) * den) by (nonlinear_arith)
            requires
                e0 * num < (e1 + 1) * den,
                0 <= num <= den,
                1 <= den,
                k == km1 + 1,
                km1 >= 0,
        ;
        assert(((e0 + km1) * num) * pd <= ((e1 + k) * den) * pd) by (nonlinear_arith)
            requires
                (e0 + km1) * num <= (e1 + k) * den,
                pd >= 0,
        ;
        assert(((e1 + k) * den) * pd == (e1 + k) * (den * pd)) by (nonlinear_arith);
    }
}

/// Damping is odd: a velocity component and its negation decay to exact
/// negations of one another, so the geometric-decay bounds apply to the
/// magnitude of a velocity of either sign.
pub proof fn law_damping_odd(k: nat, v: int, num: int, den: int)
    requires
        1 <= den,
        0 <= num,
    ensures
        damp_iter(k, -v, num, den) == -damp_iter(k, v, num, den),
    decreases k,
{
    if k > 0 {
        let km1 = (k - 1) as nat;
        law_damping_odd(km1, v, num, den);
        let w = damp_iter(km1, v, num, den);
        assert((-w) * num == -(w * num)) by (nonlinear_arith);
        crate::math::lemma_div_trunc_neg(w * num, den);
    }
}

/// Powers of a nonnegative base are nonnegative.
proof fn lemma_pow_nat_nonneg(b: int, e: nat)
    requires
        b >= 0,
    ensures
        pow_nat(b, e) >= 0,
    decreases e,
{
    if e > 0 {
        lemma_pow_nat_nonneg(b, (e - 1) as nat);
        assert(b * pow_nat(b, (e - 1) as nat) >= 0) by (nonlinear_arith)
            requires
                b >= 0,
                pow_nat(b, (e - 1) as nat) >= 0,
        ;
    }
}

/// One damped step keeps a velocity component within `VEL_BOUND`, even
/// after a full step's worth of accumulated force: the decay `num / den`
/// eats the slack `FORCE_TOTAL_BOUND`.
proof fn lemma_vel_bound_preserved(v: int, num: int, den: int)
    requires
        1 <= den <= crate::config::MAX_DAMP_DEN,
        0 <= num < den,
        -(VEL_BOUND + FORCE_TOTAL_BOUND) <= v <= VEL_BOUND + FORCE_TOTAL_BOUND,
    ensures
        -VEL_BOUND <= damp_spec(v, num, den) <= VEL_BOUND,
        i128::MIN < v * num < i128::MAX,
{
    assert((VEL_BOUND + FORCE_TOTAL_BOUND) * num <= VEL_BOUND * den && -(VEL_BOUND * den) <= -((
    VEL_BOUND + FORCE_TOTAL_BOUND) * num) && -(VEL_BOUND * den) <= v * num <= VEL_BOUND * den
        && i128::MIN < v * num < i128::MAX) by (nonlinear_arith)
        requires
            1 <= den <= crate::config::MAX_DAMP_DEN,
            0 <= num < den,
            -(VEL_BOUND + FORCE_TOTAL_BOUND) <= v <= VEL_BOUND + FORCE_TOTAL_BOUND,
    ;
    lemma_div_trunc_bound(v * num, den, VEL_BOUND as int);
}

} // verus!
