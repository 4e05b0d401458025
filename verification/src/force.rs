//! The pairwise force law. For two particles at squared distance `r2`
//! (positions distinct), with the thresholds of the configuration:
//!
//! * short range (`r < repulsion_distance`): both particles repel with
//!   magnitude `strength / r * scaling`, independent of type, and the two
//!   forces are exact negations (Newton's third law holds here);
//! * interaction range (`repulsion_distance <= r < interaction_distance`):
//!   each particle's magnitude is its own matrix row's coefficient divided
//!   by `r^2`, times the scaling — the two magnitudes differ when the
//!   matrix is asymmetric, though both act along the connecting axis;
//! * beyond (`r >= interaction_distance`): no force.
//!
//! Regime tests compare `r2` with the squared thresholds, which is exact.
//! All force components are computed as integer quotients truncated toward
//! zero; `r` itself appears only in the mid-range denominator `r2 * r` and
//! is the floor square root of `r2`.

use crate::config::{SimConfig, FIX, FORCE_COMP_BOUND, MAX_COEFF, MAX_EXTENT};
use crate::math::{
    div_trunc, div_trunc_spec, isqrt, lemma_div_trunc_bound, lemma_div_trunc_magnitude,
    lemma_div_trunc_neg, lemma_div_trunc_nonzero, sqrt_floor,
};
use crate::particle::{Particle, Vec2};
use vstd::prelude::*;

verus! {

/// Dot product of two vectors.
pub open spec fn dot(a: Vec2, b: Vec2) -> int {
    a.x * b.x + a.y * b.y
}

/// Squared Euclidean distance between the two positions.
pub open spec fn dist2(p1: Particle, p2: Particle) -> int {
    let dx = p2.position.x - p1.position.x;
    let dy = p2.position.y - p1.position.y;
    dx * dx + dy * dy
}

/// Force on the first particle in the short-range regime, one component:
/// `-(strength * scaling * d) / r2`, truncated toward zero. The minus sign
/// pushes the particle away from the other one.
pub open spec fn repulsion_component(d: int, r2: int, cfg: SimConfig) -> int {
    div_trunc_spec(-(cfg.repulsion_strength * cfg.force_scaling * d), r2)
}

/// Force on a particle in the mid-range regime, one component, for the
/// coefficient `c` of its own matrix row: `FIX * c * scaling * d`
/// divided by `r2 * sqrt(r2)`, truncated toward zero. A positive `c`
/// gives a force toward the other particle (attraction).
pub open spec fn interaction_component(c: int, d: int, r2: int, cfg: SimConfig) -> int {
    div_trunc_spec(FIX * c * cfg.force_scaling * d, r2 * sqrt_floor(r2))
}

/// The pair of forces `calculate_force` returns: first the force on `p1`,
/// then the force on `p2`, by the three distance regimes in order.
pub open spec fn force_pair_spec(p1: Particle, p2: Particle, cfg: SimConfig) -> (Vec2, Vec2) {
    let dx = p2.position.x - p1.position.x;
    let dy = p2.position.y - p1.position.y;
    let r2 = dist2(p1, p2);
    if r2 < cfg.repulsion_distance * cfg.repulsion_distance {
        let fx = repulsion_component(dx as int, r2, cfg);
        let fy = repulsion_component(dy as int, r2, cfg);
        (Vec2 { x: fx as i128, y: fy as i128 }, Vec2 { x: (-fx) as i128, y: (-fy) as i128 })
    } else if r2 < cfg.interaction_distance * cfg.interaction_distance {
        let c12 = cfg.matrix.coeff(p1.particle_class, p2.particle_class);
        let c21 = cfg.matrix.coeff(p2.particle_class, p1.particle_class);
        let f1x = interaction_component(c12, dx as int, r2, cfg);
        let f1y = interaction_component(c12, dy as int, r2, cfg);
        let f2x = interaction_component(c21, dx as int, r2, cfg);
        let f2y = interaction_component(c21, dy as int, r2, cfg);
        (Vec2 { x: f1x as i128, y: f1y as i128 }, Vec2 { x: (-f2x) as i128, y: (-f2y) as i128 })
    } else {
        (Vec2 { x: 0, y: 0 }, Vec2 { x: 0, y: 0 })
    }
}

/// Both components within the per-pair force bound.
pub open spec fn force_bounded(v: Vec2) -> bool {
    &&& -FORCE_COMP_BOUND <= v.x <= FORCE_COMP_BOUND
    &&& -FORCE_COMP_BOUND <= v.y <= FORCE_COMP_BOUND
}

/// One quotient of the short-range regime is bounded by
/// `FORCE_COMP_BOUND`: the numerator `s * f * d` never exceeds
/// `FORCE_COMP_BOUND * r2`, because `r2 >= d * d >= |d|`.
proof fn lemma_repulsion_component_bound(d: int, r2: int, cfg: SimConfig)
    requires
        cfg.wf(),
        -MAX_EXTENT <= d <= MAX_EXTENT,
        r2 >= d * d,
        r2 >= 1,
    ensures
        -FORCE_COMP_BOUND <= repulsion_component(d, r2, cfg) <= FORCE_COMP_BOUND,
{
    let n = cfg.repulsion_strength * cfg.force_scaling * d;
    assert(-(FORCE_COMP_BOUND * r2) <= -n <= FORCE_COMP_BOUND * r2) by (nonlinear_arith)
        requires
            0 <= cfg.repulsion_strength <= MAX_COEFF,
            0 <= cfg.force_scaling <= MAX_COEFF,
            r2 >= d * d,
            r2 >= 1,
            n == cfg.repulsion_strength * cfg.force_scaling * d,
    ;
    lemma_div_trunc_bound(-n, r2, FORCE_COMP_BOUND as int);
}

/// One quotient of the mid-range regime is bounded by
/// `FORCE_COMP_BOUND`: with `r` the floor square root of `r2`, the
/// numerator `FIX * c * f * d` never exceeds `FORCE_COMP_BOUND * r2 * r`,
/// because `|d| <= r`.
proof fn lemma_interaction_component_bound(c: int, d: int, r2: int, cfg: SimConfig)
    requires
        cfg.wf(),
        -MAX_COEFF <= c <= MAX_COEFF,
        r2 >= d * d,
        r2 >= 1,
        sqrt_floor(r2) >= 0,
        sqrt_floor(r2) * sqrt_floor(r2) <= r2 < (sqrt_floor(r2) + 1) * (sqrt_floor(r2) + 1),
    ensures
        -FORCE_COMP_BOUND <= interaction_component(c, d, r2, cfg) <= FORCE_COMP_BOUND,
{
    let r = sqrt_floor(r2);
    let n = FIX * c * cfg.force_scaling * d;
    assert(r >= 1 && 1 <= r2 * r && -(FORCE_COMP_BOUND * (r2 * r)) <= n <= FORCE_COMP_BOUND * (r2
        * r)) by (nonlinear_arith)
        requires
            -MAX_COEFF <= c <= MAX_COEFF,
            0 <= cfg.force_scaling <= MAX_COEFF,
            r2 >= d * d,
            r2 >= 1,
            r * r <= r2 < (r + 1) * (r + 1),
            0 <= r,
            n == FIX * c * cfg.force_scaling * d,
    ;
    lemma_div_trunc_bound(n, r2 * r, FORCE_COMP_BOUND as int);
}

/// The displacement from the first particle's position to the second's.
pub open spec fn displacement(p1: Particle, p2: Particle) -> Vec2 {
    Vec2 {
        x: (p2.position.x - p1.position.x) as i128,
        y: (p2.position.y - p1.position.y) as i128,
    }
}

/// Beyond the interaction distance there is no force at all: whenever the
/// squared distance reaches the squared interaction threshold (and the
/// repulsion threshold does not exceed the interaction threshold), both
/// returned forces are the zero vector.
pub proof fn law_zero_force_beyond_interaction(p1: Particle, p2: Particle, cfg: SimConfig)
    requires
        cfg.wf(),
        cfg.repulsion_distance <= cfg.interaction_distance,
        dist2(p1, p2) >= cfg.interaction_distance * cfg.interaction_distance,
    ensures
        force_pair_spec(p1, p2, cfg).0.x == 0,
        force_pair_spec(p1, p2, cfg).0.y == 0,
        force_pair_spec(p1, p2, cfg).1.x == 0,
        force_pair_spec(p1, p2, cfg).1.y == 0,
{
    assert(cfg.repulsion_distance * cfg.repulsion_distance <= cfg.interaction_distance
        * cfg.interaction_distance) by (nonlinear_arith)
        requires
            0 <= cfg.repulsion_distance <= cfg.interaction_distance,
    ;
}

/// Inside the repulsion distance both forces point away from the other
/// particle along the connecting axis: the force on `p1` has negative dot
/// product with the displacement toward `p2`, the force on `p2` a
/// positive one, and the two forces are exact negations of one another.
/// The strictness needs the product of repulsion strength and scaling to
/// reach twice the repulsion distance, else truncation could round the
/// whole force to zero; the default parameters exceed that bound by
/// four orders of magnitude.
pub proof fn law_repulsion_pushes_apart(p1: Particle, p2: Particle, cfg: SimConfig)
    requires
        cfg.wf(),
        p1.wf(cfg),
        p2.wf(cfg),
        p1.position != p2.position,
        dist2(p1, p2) < cfg.repulsion_distance * cfg.repulsion_distance,
        cfg.repulsion_strength * cfg.force_scaling >= 2 * cfg.repulsion_distance,
    ensures
        dot(force_pair_spec(p1, p2, cfg).0, displacement(p1, p2)) < 0,
        dot(force_pair_spec(p1, p2, cfg).1, displacement(p1, p2)) > 0,
        force_pair_spec(p1, p2, cfg).1.x == -force_pair_spec(p1, p2, cfg).0.x,
        force_pair_spec(p1, p2, cfg).1.y == -force_pair_spec(p1, p2, cfg).0.y,
{
    let dx = p2.position.x - p1.position.x;
    let dy = p2.position.y - p1.position.y;
    let r2 = dist2(p1, p2);
    let sf = cfg.repulsion_strength * cfg.force_scaling;
    assert((0 <= sf) && (dx * dx >= 0) && (dy * dy >= 0) && (dx != 0 ==> dx * dx >= 1) && (dy != 0
        ==> dy * dy >= 1)) by (nonlinear_arith)
        requires
            0 <= cfg.repulsion_strength,
            0 <= cfg.force_scaling,
            sf == cfg.repulsion_strength * cfg.force_scaling,
    ;
    assert(r2 >= 1);
    let qx = div_trunc_spec(sf * dx, r2);
    let qy = div_trunc_spec(sf * dy, r2);
    lemma_div_trunc_neg(sf * dx, r2);
    lemma_div_trunc_neg(sf * dy, r2);
    lemma_repulsion_component_bound(dx, r2, cfg);
    lemma_repulsion_component_bound(dy, r2, cfg);
    lemma_div_trunc_magnitude(sf * dx, r2);
    lemma_div_trunc_magnitude(sf * dy, r2);
    assert(force_pair_spec(p1, p2, cfg).0.x == -qx && force_pair_spec(p1, p2, cfg).0.y == -qy);
    assert(force_pair_spec(p1, p2, cfg).1.x == qx && force_pair_spec(p1, p2, cfg).1.y == qy);
    // Each axis contributes a nonnegative amount to q . d, positive as
    // soon as the quotient survives truncation.
    lemma_axis_term_sign(sf, dx, r2);
    lemma_axis_term_sign(sf, dy, r2);
    // Truncation cannot kill both components: that would force
    // sf < 2 * repulsion_distance.
    if qx * dx == 0 && qy * dy == 0 {
        let ax = if dx >= 0 {
            dx
        } else {
            -dx
        };
        let ay = if dy >= 0 {
            dy
        } else {
            -dy
        };
        lemma_axis_zero_means_small(sf, dx, r2);
        lemma_axis_zero_means_small(sf, dy, r2);
        assert(ax * ax == dx * dx && ay * ay == dy * dy) by (nonlinear_arith)
            requires
                ax == (if dx >= 0 {
                    dx
                } else {
                    -dx
                }),
                ay == (if dy >= 0 {
                    dy
                } else {
                    -dy
                }),
        ;
        assert(false) by (nonlinear_arith)
            requires
                ax >= 0,
                ay >= 0,
                ax * ax + ay * ay >= 1,
                ax * ax + ay * ay < cfg.repulsion_distance * cfg.repulsion_distance,
                cfg.repulsion_distance >= 0,
                sf >= 2 * cfg.repulsion_distance,
                sf * ax < ax * ax + ay * ay,
                sf * ay < ax * ax + ay * ay,
        ;
    }
    assert(displacement(p1, p2).x == dx && displacement(p1, p2).y == dy);
    assert((-qx) * dx == -(qx * dx) && (-qy) * dy == -(qy * dy)) by (nonlinear_arith);
    assert(dot(force_pair_spec(p1, p2, cfg).0, displacement(p1, p2)) == -(qx * dx) - (qy * dy));
    assert(dot(force_pair_spec(p1, p2, cfg).1, displacement(p1, p2)) == (qx * dx) + (qy * dy));
}

/// One axis's share of the dot product between the (untruncated-sign)
/// repulsion quotient and the displacement is nonnegative.
proof fn lemma_axis_term_sign(sf: int, d: int, r2: int)
    requires
        sf >= 0,
        r2 >= 1,
    ensures
        div_trunc_spec(sf * d, r2) * d >= 0,
{
    let q = div_trunc_spec(sf * d, r2);
    assert((d >= 0 ==> sf * d >= 0) && (d <= 0 ==> sf * d <= 0)) by (nonlinear_arith)
        requires
            sf >= 0,
    ;
    lemma_div_trunc_magnitude(sf * d, r2);
    assert((q >= 0 && d >= 0 ==> q * d >= 0) && (q <= 0 && d <= 0 ==> q * d >= 0))
        by (nonlinear_arith);
}

/// If an axis's quotient times its displacement is zero, the numerator
/// `sf * |d|` was smaller than the denominator `r2`.
proof fn lemma_axis_zero_means_small(sf: int, d: int, r2: int)
    requires
        sf >= 0,
        r2 >= 1,
        div_trunc_spec(sf * d, r2) * d == 0,
    ensures
        sf * (if d >= 0 {
            d
        } else {
            -d
        }) < r2,
{
    let a = if d >= 0 {
        d
    } else {
        -d
    };
    assert((d == 0 ==> sf * a == 0) && (d > 0 ==> sf * a == sf * d) && (d < 0 ==> sf * a == -(sf
        * d))) by (nonlinear_arith)
        requires
            a == (if d >= 0 {
                d
            } else {
                -d
            }),
    ;
    if d == 0 {
    } else {
        let q = div_trunc_spec(sf * d, r2);
        assert(q == 0) by (nonlinear_arith)
            requires
                q * d == 0,
                d != 0,
        ;
        lemma_div_trunc_neg(sf * d, r2);
        if sf * a >= r2 {
            lemma_div_trunc_nonzero(sf * a, r2);
            assert(false);
        }
    }
}

/// In the interaction regime each particle's force follows its own matrix
/// row, bit for bit from the stated formula: the force on `p1` is the
/// truncated quotient with coefficient `matrix[type(p1)][type(p2)]`, the
/// force on `p2` the negated quotient with coefficient
/// `matrix[type(p2)][type(p1)]`, both along the same connecting axis. In
/// particular, equal opposite coefficients make the two forces exact
/// negations.
pub proof fn law_interaction_follows_matrix(p1: Particle, p2: Particle, cfg: SimConfig)
    requires
        cfg.wf(),
        p1.wf(cfg),
        p2.wf(cfg),
        dist2(p1, p2) >= cfg.repulsion_distance * cfg.repulsion_distance,
        dist2(p1, p2) < cfg.interaction_distance * cfg.interaction_distance,
        p1.position != p2.position,
    ensures
        force_pair_spec(p1, p2, cfg).0.x == interaction_component(
            cfg.matrix.coeff(p1.particle_class, p2.particle_class),
            p2.position.x - p1.position.x,
            dist2(p1, p2),
            cfg,
        ),
        force_pair_spec(p1, p2, cfg).0.y == interaction_component(
            cfg.matrix.coeff(p1.particle_class, p2.particle_class),
            p2.position.y - p1.position.y,
            dist2(p1, p2),
            cfg,
        ),
        force_pair_spec(p1, p2, cfg).1.x == -interaction_component(
            cfg.matrix.coeff(p2.particle_class, p1.particle_class),
            p2.position.x - p1.position.x,
            dist2(p1, p2),
            cfg,
        ),
        force_pair_spec(p1, p2, cfg).1.y == -interaction_component(
            cfg.matrix.coeff(p2.particle_class, p1.particle_class),
            p2.position.y - p1.position.y,
            dist2(p1, p2),
            cfg,
        ),
        cfg.matrix.coeff(p1.particle_class, p2.particle_class) == cfg.matrix.coeff(
            p2.particle_class,
            p1.particle_class,
        ) ==> force_pair_spec(p1, p2, cfg).1.x == -force_pair_spec(p1, p2, cfg).0.x
            && force_pair_spec(p1, p2, cfg).1.y == -force_pair_spec(p1, p2, cfg).0.y,
{
    let dx = p2.position.x - p1.position.x;
    let dy = p2.position.y - p1.position.y;
    let r2 = dist2(p1, p2);
    assert((dx != 0 || dy != 0) && (dx * dx >= 0) && (dy * dy >= 0) && ((dx != 0 || dy != 0)
        ==> dx * dx + dy * dy >= 1) && (dx * dx <= MAX_EXTENT * MAX_EXTENT) && (dy * dy
        <= MAX_EXTENT * MAX_EXTENT)) by (nonlinear_arith)
        requires
            -MAX_EXTENT <= dx <= MAX_EXTENT,
            -MAX_EXTENT <= dy <= MAX_EXTENT,
            dx != 0 || dy != 0,
    ;
    crate::math::lemma_sqrt_floor_props(r2);
    lemma_interaction_component_bound(
        cfg.matrix.coeff(p1.particle_class, p2.particle_class),
        dx,
        r2,
        cfg,
    );
    lemma_interaction_component_bound(
        cfg.matrix.coeff(p1.particle_class, p2.particle_class),
        dy,
        r2,
        cfg,
    );
    lemma_interaction_component_bound(
        cfg.matrix.coeff(p2.particle_class, p1.particle_class),
        dx,
        r2,
        cfg,
    );
    lemma_interaction_component_bound(
        cfg.matrix.coeff(p2.particle_class, p1.particle_class),
        dy,
        r2,
        cfg,
    );
}

/// Computes the pair of forces between two particles at distinct
/// positions: the force on `p1` first, the force on `p2` second, exactly
/// as `force_pair_spec` states them, and each component within
/// `FORCE_COMP_BOUND`.
pub fn calculate_force(p1: &Particle, p2: &Particle, cfg: &SimConfig) -> (r: (Vec2, Vec2))
    requires
        cfg.wf(),
        p1.wf(*cfg),
        p2.wf(*cfg),
        p1.position != p2.position,
    ensures
        r == force_pair_spec(*p1, *p2, *cfg),
        force_bounded(r.0),
        force_bounded(r.1),
{
    let dx = p2.position.x - p1.position.x;
    let dy = p2.position.y - p1.position.y;
    assert(dx != 0 || dy != 0);
    assert((0 <= dx * dx <= MAX_EXTENT * MAX_EXTENT) && (0 <= dy * dy <= MAX_EXTENT
        * MAX_EXTENT) && (dx * dx + dy * dy >= 1)) by (nonlinear_arith)
        requires
            -MAX_EXTENT <= dx <= MAX_EXTENT,
            -MAX_EXTENT <= dy <= MAX_EXTENT,
            dx != 0 || dy != 0,
    ;
    let r2 = dx * dx + dy * dy;
    proof {
        assert((0 <= cfg.repulsion_distance * cfg.repulsion_distance <= MAX_EXTENT * MAX_EXTENT)
            && (0 <= cfg.interaction_distance * cfg.interaction_distance <= MAX_EXTENT
            * MAX_EXTENT)) by (nonlinear_arith)
            requires
                0 <= cfg.repulsion_distance <= MAX_EXTENT,
                0 <= cfg.interaction_distance <= MAX_EXTENT,
        ;
    }
    let rd2 = cfg.repulsion_distance * cfg.repulsion_distance;
    let id2 = cfg.interaction_distance * cfg.interaction_distance;
    if r2 < rd2 {
        let s = cfg.repulsion_strength;
        let f = cfg.force_scaling;
        proof {
            assert((-(MAX_COEFF * MAX_COEFF) <= s * f <= MAX_COEFF * MAX_COEFF) && (-(MAX_COEFF
                * MAX_COEFF * MAX_EXTENT) <= (s * f) * dx <= MAX_COEFF * MAX_COEFF * MAX_EXTENT)
                && (-(MAX_COEFF * MAX_COEFF * MAX_EXTENT) <= (s * f) * dy <= MAX_COEFF * MAX_COEFF
                * MAX_EXTENT)) by (nonlinear_arith)
                requires
                    0 <= s <= MAX_COEFF,
                    0 <= f <= MAX_COEFF,
                    -MAX_EXTENT <= dx <= MAX_EXTENT,
                    -MAX_EXTENT <= dy <= MAX_EXTENT,
            ;
            lemma_repulsion_component_bound(dx as int, r2 as int, *cfg);
            lemma_repulsion_component_bound(dy as int, r2 as int, *cfg);
        }
        let nx = s * f * dx;
        let ny = s * f * dy;
        let fx = div_trunc(-nx, r2);
        let fy = div_trunc(-ny, r2);
        (Vec2 { x: fx, y: fy }, Vec2 { x: -fx, y: -fy })
    } else if r2 < id2 {
        let rr = isqrt(r2 as u128);
        proof {
            assert(rr <= 2_000_000_000_000) by (nonlinear_arith)
                requires
                    rr * rr <= 2 * MAX_EXTENT * MAX_EXTENT,
            ;
        }
        let r_dist = rr as i128;
        let c12 = cfg.matrix.coefficient(p1.particle_class, p2.particle_class);
        let c21 = cfg.matrix.coefficient(p2.particle_class, p1.particle_class);
        let f = cfg.force_scaling;
        proof {
            assert(r_dist == sqrt_floor(r2 as int));
            assert((r_dist >= 1) && (1 <= r2 * r_dist <= MAX_EXTENT * MAX_EXTENT * 4_000_000_000_000))
                by (nonlinear_arith)
                requires
                    r_dist * r_dist <= r2 < (r_dist + 1) * (r_dist + 1),
                    1 <= r2 <= 2 * MAX_EXTENT * MAX_EXTENT,
                    0 <= r_dist <= 2_000_000_000_000,
            ;
            assert forall|c: i128, d: i128|
                -MAX_COEFF <= c <= MAX_COEFF && -MAX_EXTENT <= d <= MAX_EXTENT implies (-(FIX
                * MAX_COEFF) <= FIX * c <= FIX * MAX_COEFF) && (-(FIX * MAX_COEFF * MAX_COEFF)
                <= #[trigger] (FIX * c * f) <= FIX * MAX_COEFF * MAX_COEFF) && (-(FIX * MAX_COEFF
                * MAX_COEFF * MAX_EXTENT) <= #[trigger] (FIX * c * f * d) <= FIX * MAX_COEFF
                * MAX_COEFF * MAX_EXTENT) by {
                assert((-(FIX * MAX_COEFF) <= FIX * c <= FIX * MAX_COEFF) && (-(FIX * MAX_COEFF
                    * MAX_COEFF) <= FIX * c * f <= FIX * MAX_COEFF * MAX_COEFF) && (-(FIX
                    * MAX_COEFF * MAX_COEFF * MAX_EXTENT) <= FIX * c * f * d <= FIX * MAX_COEFF
                    * MAX_COEFF * MAX_EXTENT)) by (nonlinear_arith)
                    requires
                        -MAX_COEFF <= c <= MAX_COEFF,
                        0 <= f <= MAX_COEFF,
                        -MAX_EXTENT <= d <= MAX_EXTENT,
                ;
            }
            lemma_interaction_component_bound(c12 as int, dx as int, r2 as int, *cfg);
            lemma_interaction_component_bound(c12 as int, dy as int, r2 as int, *cfg);
            lemma_interaction_component_bound(c21 as int, dx as int, r2 as int, *cfg);
            lemma_interaction_component_bound(c21 as int, dy as int, r2 as int, *cfg);
        }
        let den = r2 * r_dist;
        let f1x = div_trunc(FIX * c12 * f * dx, den);
        let f1y = div_trunc(FIX * c12 * f * dy, den);
        let f2x = div_trunc(FIX * c21 * f * dx, den);
        let f2y = div_trunc(FIX * c21 * f * dy, den);
        (Vec2 { x: f1x, y: f1y }, Vec2 { x: -f2x, y: -f2y })
    } else {
        (Vec2 { x: 0, y: 0 }, Vec2 { x: 0, y: 0 })
    }
}

} // verus!
