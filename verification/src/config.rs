//! Simulation configuration: the closed set of particle types, the square
//! interaction-coefficient matrix indexed by ordered type pairs, and the
//! immutable parameter block that every physics function receives.
//!
//! All lengths, strengths and coefficients are fixed-point integers with
//! `FIX` sub-units per simulation unit, so the force and integration
//! formulas are exact integer arithmetic. The well-formedness predicate
//! `SimConfig::wf` bounds every parameter so that each intermediate product
//! of the physics fits comfortably in `i128`.

use vstd::prelude::*;

verus! {

/// Fixed-point scale: sub-units per simulation unit.
pub const FIX: i128 = 1_000_000;

/// Number of particle types (and the interaction matrix's side length).
pub const TYPE_COUNT: usize = 6;

/// Largest screen extent or distance threshold (10^6 units).
pub const MAX_EXTENT: i128 = 1_000_000_000_000;

/// Largest magnitude of an interaction coefficient, of the repulsion
/// strength, and of the force scaling factor (10^3 units).
pub const MAX_COEFF: i128 = 1_000_000_000;

/// Largest damping denominator.
pub const MAX_DAMP_DEN: i128 = 1_000;

/// Largest population the driver accepts in one step.
pub const MAX_POPULATION: usize = 10_000;

/// Bound on either component of a single pairwise force
/// (`FIX * MAX_COEFF * MAX_COEFF`).
pub const FORCE_COMP_BOUND: i128 = 1_000_000_000_000_000_000_000_000;

/// Bound on either component of the force a particle accumulates in one
/// step (`MAX_POPULATION * FORCE_COMP_BOUND`).
pub const FORCE_TOTAL_BOUND: i128 = 10_000_000_000_000_000_000_000_000_000;

/// Bound on either velocity component that one damped step re-establishes
/// (`2 * MAX_DAMP_DEN * FORCE_TOTAL_BOUND`).
pub const VEL_BOUND: i128 = 20_000_000_000_000_000_000_000_000_000_000;

/// The closed set of particle types; a type is only an index into the
/// interaction matrix (and a color key for a renderer, which is outside
/// this crate).
#[derive(Clone, Copy, PartialEq, Eq, Structural, Debug)]
pub enum ParticleClass {
    Red,
    Blue,
    Green,
    Yellow,
    Purple,
    Orange,
}

impl ParticleClass {
    /// Row (or column) of this type in the interaction matrix.
    pub open spec fn idx(self) -> int {
        match self {
            ParticleClass::Red => 0,
            ParticleClass::Blue => 1,
            ParticleClass::Green => 2,
            ParticleClass::Yellow => 3,
            ParticleClass::Purple => 4,
            ParticleClass::Orange => 5,
        }
    }

    /// Executable matrix index of this type.
    pub fn index(self) -> (r: usize)
        ensures
            r == self.idx(),
            r < TYPE_COUNT,
    {
        match self {
            ParticleClass::Red => 0,
            ParticleClass::Blue => 1,
            ParticleClass::Green => 2,
            ParticleClass::Yellow => 3,
            ParticleClass::Purple => 4,
            ParticleClass::Orange => 5,
        }
    }

    /// The type whose matrix index is `i`.
    pub fn from_index(i: usize) -> (r: ParticleClass)
        requires
            i < TYPE_COUNT,
        ensures
            r.idx() == i,
    {
        if i == 0 {
            ParticleClass::Red
        } else if i == 1 {
            ParticleClass::Blue
        } else if i == 2 {
            ParticleClass::Green
        } else if i == 3 {
            ParticleClass::Yellow
        } else if i == 4 {
            ParticleClass::Purple
        } else {
            ParticleClass::Orange
        }
    }
}

/// Square matrix of signed interaction coefficients, stored row-major:
/// entry `(a, b)` is the coefficient governing the force that `a` feels
/// from `b`. The matrix need not be symmetric.
pub struct InteractionMatrix {
    pub coeffs: Vec<i128>,
}

impl InteractionMatrix {
    /// Exactly one bounded coefficient for every ordered pair of types.
    pub open spec fn wf(self) -> bool {
        &&& self.coeffs@.len() == TYPE_COUNT * TYPE_COUNT
        &&& forall|i: int|
            0 <= i < self.coeffs@.len() ==> -MAX_COEFF <= #[trigger] self.coeffs@[i] <= MAX_COEFF
    }

    /// Coefficient for the ordered pair `(a, b)`.
    pub open spec fn coeff(self, a: ParticleClass, b: ParticleClass) -> int {
        self.coeffs@[a.idx() * (TYPE_COUNT as int) + b.idx()] as int
    }

    /// Looks the coefficient for `(a, b)` up.
    pub fn coefficient(&self, a: ParticleClass, b: ParticleClass) -> (r: i128)
        requires
            self.wf(),
        ensures
            r == self.coeff(a, b),
            -MAX_COEFF <= r <= MAX_COEFF,
    {
        let i = a.index() * TYPE_COUNT + b.index();
        self.coeffs[i]
    }
}

/// The immutable parameter block of one simulation: screen extents, the
/// particle's drawn size, the two distance-regime thresholds, the force
/// law's strengths, the damping ratio, and the interaction matrix. All
/// spatial values are in `FIX` sub-units.
pub struct SimConfig {
    /// Horizontal screen extent.
    pub width: i128,
    /// Vertical screen extent.
    pub height: i128,
    /// Drawn size of a particle; positions stay in `[0, extent - size]`.
    pub particle_size: i128,
    /// Below this distance the typed mid-range interaction applies.
    pub interaction_distance: i128,
    /// Below this distance the untyped short-range repulsion applies.
    pub repulsion_distance: i128,
    /// Strength of the short-range repulsion.
    pub repulsion_strength: i128,
    /// Multiplier applied to every force magnitude.
    pub force_scaling: i128,
    /// Damping numerator: each step scales velocity by `num / den`.
    pub damping_num: i128,
    /// Damping denominator.
    pub damping_den: i128,
    /// The interaction coefficient matrix.
    pub matrix: InteractionMatrix,
}

impl SimConfig {
    /// Largest position a particle may take on the horizontal axis.
    pub open spec fn x_bound(self) -> int {
        self.width - self.particle_size
    }

    /// Largest position a particle may take on the vertical axis.
    pub open spec fn y_bound(self) -> int {
        self.height - self.particle_size
    }

    /// Every parameter within the machine bounds the integer physics
    /// needs, and the damping ratio a genuine decay (`num < den`).
    pub open spec fn wf(self) -> bool {
        &&& 0 < self.width <= MAX_EXTENT
        &&& 0 < self.height <= MAX_EXTENT
        &&& 0 <= self.particle_size
        &&& self.particle_size < self.width
        &&& self.particle_size < self.height
        &&& 0 <= self.interaction_distance <= MAX_EXTENT
        &&& 0 <= self.repulsion_distance <= MAX_EXTENT
        &&& 0 <= self.repulsion_strength <= MAX_COEFF
        &&& 0 <= self.force_scaling <= MAX_COEFF
        &&& 1 <= self.damping_den <= MAX_DAMP_DEN
        &&& 0 <= self.damping_num < self.damping_den
        &&& self.matrix.wf()
    }
}

impl SimConfig {
    /// Fail-fast startup check: decides exactly whether this
    /// configuration is well-formed, so a driver can refuse a bad matrix
    /// or parameter before the simulation starts instead of computing
    /// with it.
    pub fn validate(&self) -> (b: bool)
        ensures
            b == self.wf(),
    {
        if !(0 < self.width && self.width <= MAX_EXTENT) {
            return false;
        }
        if !(0 < self.height && self.height <= MAX_EXTENT) {
            return false;
        }
        if !(0 <= self.particle_size && self.particle_size < self.width && self.particle_size
            < self.height) {
            return false;
        }
        if !(0 <= self.interaction_distance && self.interaction_distance <= MAX_EXTENT) {
            return false;
        }
        if !(0 <= self.repulsion_distance && self.repulsion_distance <= MAX_EXTENT) {
            return false;
        }
        if !(0 <= self.repulsion_strength && self.repulsion_strength <= MAX_COEFF) {
            return false;
        }
        if !(0 <= self.force_scaling && self.force_scaling <= MAX_COEFF) {
            return false;
        }
        if !(1 <= self.damping_den && self.damping_den <= MAX_DAMP_DEN) {
            return false;
        }
        if !(0 <= self.damping_num && self.damping_num < self.damping_den) {
            return false;
        }
        if self.matrix.coeffs.len() != TYPE_COUNT * TYPE_COUNT {
            return false;
        }
        let mut i: usize = 0;
        while i < self.matrix.coeffs.len()
            invariant
                self.matrix.coeffs@.len() == TYPE_COUNT * TYPE_COUNT,
                i <= self.matrix.coeffs@.len(),
                forall|k: int|
                    0 <= k < i ==> -MAX_COEFF <= #[trigger] self.matrix.coeffs@[k] <= MAX_COEFF,
            decreases self.matrix.coeffs@.len() - i,
        {
            let c = self.matrix.coeffs[i];
            if !(-MAX_COEFF <= c && c <= MAX_COEFF) {
                return false;
            }
            i = i + 1;
        }
        true
    }
}

/// The default configuration: a 1920 x 1080 screen, particle size 10,
/// interaction range 500, repulsion range 20 with strength 0.05, damping
/// 0.98, force scaling 10, and the six-type coefficient matrix (rows and
/// columns ordered red, blue, green, yellow, purple, orange).
pub fn default_config() -> (cfg: SimConfig)
    ensures
        cfg.wf(),
        cfg.width == 1920 * FIX,
        cfg.height == 1080 * FIX,
        cfg.particle_size == 10 * FIX,
        cfg.interaction_distance == 500 * FIX,
        cfg.repulsion_distance == 20 * FIX,
        cfg.repulsion_strength == 50_000,
        cfg.force_scaling == 10 * FIX,
        cfg.damping_num == 98,
        cfg.damping_den == 100,
        cfg.matrix.coeff(ParticleClass::Red, ParticleClass::Red) == 900_000,
        cfg.matrix.coeff(ParticleClass::Red, ParticleClass::Blue) == -500_000,
        cfg.matrix.coeff(ParticleClass::Blue, ParticleClass::Red) == 400_000,
{
    let coeffs: Vec<i128> = vec![
        900_000, -500_000, 300_000, -700_000, 600_000, -400_000,
        400_000, 800_000, -800_000, 200_000, -600_000, 100_000,
        -300_000, 600_000, 700_000, -500_000, 200_000, -400_000,
        500_000, -200_000, 400_000, 900_000, -800_000, 300_000,
        -600_000, 300_000, -200_000, 700_000, 800_000, -900_000,
        200_000, -400_000, 500_000, -300_000, 100_000, 900_000,
    ];
    let cfg = SimConfig {
        width: 1920 * FIX,
        height: 1080 * FIX,
        particle_size: 10 * FIX,
        interaction_distance: 500 * FIX,
        repulsion_distance: 20 * FIX,
        repulsion_strength: 50_000,
        force_scaling: 10 * FIX,
        damping_num: 98,
        damping_den: 100,
        matrix: InteractionMatrix { coeffs },
    };
    proof {
        assert forall|i: int| 0 <= i < cfg.matrix.coeffs@.len() implies -MAX_COEFF
            <= #[trigger] cfg.matrix.coeffs@[i] <= MAX_COEFF by {
            assert(cfg.matrix.coeffs@.len() == 36);
        }
    }
    cfg
}

} // verus!
