//! Vectors and the four pairwise force laws.
//!
//! Every force law shares one radial, inverse-square shape with a
//! degenerate-distance guard: a force of magnitude `strength / r²` along
//! the separation vector, computed exactly over integers as
//! `strength·d / (r²·⌊√r²⌋)` with a single truncating division per
//! component, and the zero vector at zero separation.

use vstd::prelude::*;
use crate::arith::{
    div_trunc, lemma_sqrt_floor_bracket, lemma_trunc_div_bound, sqrt_floor, sqrt_floor_exec,
    trunc_div,
};
use vstd::string::StringExecFns;
use crate::particle::{debug_info_spec, Particle};
use crate::simulation::{
    lemma_pair_force_bounded, net_force_prefix, net_force_spec, pair_force, SimulationState,
};

verus! {

/// Every scalar the engine stores — a coordinate, a velocity component, a
/// mass, a charge, a force constant or a timestep — is admissible only up
/// to this bound. It keeps every intermediate product of a tick within
/// `i128`.
pub const SCALAR_LIMIT: i128 = 1048576;

/// Separations whose squared length is at most the square of this bound
/// lie inside the strong-force band; beyond it the strong force vanishes.
pub const STRONG_FORCE_RANGE: i128 = 10;

/// The mathematical value of a `Vector3`: three unbounded integers.
pub ghost struct V3 {
    pub x: int,
    pub y: int,
    pub z: int,
}

pub open spec fn v3_zero() -> V3 {
    V3 { x: 0, y: 0, z: 0 }
}

pub open spec fn v3_add(a: V3, b: V3) -> V3 {
    V3 { x: a.x + b.x, y: a.y + b.y, z: a.z + b.z }
}

pub open spec fn v3_sub(a: V3, b: V3) -> V3 {
    V3 { x: a.x - b.x, y: a.y - b.y, z: a.z - b.z }
}

pub open spec fn v3_neg(a: V3) -> V3 {
    V3 { x: -a.x, y: -a.y, z: -a.z }
}

pub open spec fn v3_scale(a: V3, k: int) -> V3 {
    V3 { x: a.x * k, y: a.y * k, z: a.z * k }
}

/// The squared Euclidean length.
pub open spec fn norm_sq(a: V3) -> int {
    a.x * a.x + a.y * a.y + a.z * a.z
}

/// Every component lies within `b` of zero.
pub open spec fn v3_bounded(a: V3, b: int) -> bool {
    &&& -b <= a.x <= b
    &&& -b <= a.y <= b
    &&& -b <= a.z <= b
}

/// A 3-component vector for positions, velocities and forces.
#[derive(Clone, Copy, Debug, PartialEq, Eq, Structural)]
pub struct Vector3 {
    pub x: i128,
    pub y: i128,
    pub z: i128,
}

impl View for Vector3 {
    type V = V3;

    open spec fn view(&self) -> V3 {
        V3 { x: self.x as int, y: self.y as int, z: self.z as int }
    }
}

/// The direction of `a`, truncated to integers: each component divided by
/// the floor of the length, and the zero vector when the length is zero.
pub open spec fn normalize_spec(a: V3) -> V3 {
    let m = sqrt_floor(norm_sq(a));
    if m == 0 {
        v3_zero()
    } else {
        V3 { x: trunc_div(a.x, m), y: trunc_div(a.y, m), z: trunc_div(a.z, m) }
    }
}

impl Vector3 {
    pub fn new(x: i128, y: i128, z: i128) -> (v: Vector3)
        ensures
            v@ == (V3 { x: x as int, y: y as int, z: z as int }),
    {
        Vector3 { x, y, z }
    }

    pub fn zero() -> (v: Vector3)
        ensures
            v@ == v3_zero(),
    {
        Vector3 { x: 0, y: 0, z: 0 }
    }

    pub fn add(&self, other: &Vector3) -> (v: Vector3)
        requires
            i128::MIN <= self@.x + other@.x <= i128::MAX,
            i128::MIN <= self@.y + other@.y <= i128::MAX,
            i128::MIN <= self@.z + other@.z <= i128::MAX,
        ensures
            v@ == v3_add(self@, other@),
    {
        Vector3 { x: self.x + other.x, y: self.y + other.y, z: self.z + other.z }
    }

    pub fn sub(&self, other: &Vector3) -> (v: Vector3)
        requires
            i128::MIN <= self@.x - other@.x <= i128::MAX,
            i128::MIN <= self@.y - other@.y <= i128::MAX,
            i128::MIN <= self@.z - other@.z <= i128::MAX,
        ensures
            v@ == v3_sub(self@, other@),
    {
        Vector3 { x: self.x - other.x, y: self.y - other.y, z: self.z - other.z }
    }

    pub fn mul(&self, scalar: i128) -> (v: Vector3)
        requires
            i128::MIN <= self@.x * scalar <= i128::MAX,
            i128::MIN <= self@.y * scalar <= i128::MAX,
            i128::MIN <= self@.z * scalar <= i128::MAX,
        ensures
            v@ == v3_scale(self@, scalar as int),
    {
        Vector3 { x: self.x * scalar, y: self.y * scalar, z: self.z * scalar }
    }

    pub fn magnitude_squared(&self) -> (m: i128)
        requires
            norm_sq(self@) <= i128::MAX,
        ensures
            m == norm_sq(self@),
            m >= 0,
    {
        proof {
            assert(self@.x * self@.x >= 0) by (nonlinear_arith);
            assert(self@.y * self@.y >= 0) by (nonlinear_arith);
            assert(self@.z * self@.z >= 0) by (nonlinear_arith);
        }
        self.x * self.x + self.y * self.y + self.z * self.z
    }

    /// The floor of the Euclidean length.
    pub fn magnitude(&self) -> (m: i128)
        requires
            norm_sq(self@) <= i128::MAX,
        ensures
            m == sqrt_floor(norm_sq(self@)),
            m >= 0,
    {
        let ms = self.magnitude_squared();
        let r = sqrt_floor_exec(ms as u128);
        r as i128
    }

    /// The truncated unit vector along `self`; the zero vector when the
    /// length is zero.
    pub fn normalize(&self) -> (v: Vector3)
        requires
            norm_sq(self@) <= i128::MAX,
        ensures
            v@ == normalize_spec(self@),
    {
        let mag = self.magnitude();
        if mag == 0 {
            Vector3::zero()
        } else {
            proof {
                assert(self@.x * self@.x >= 0) by (nonlinear_arith);
                assert(self@.y * self@.y >= 0) by (nonlinear_arith);
                assert(self@.z * self@.z >= 0) by (nonlinear_arith);
                assert(self.x > i128::MIN && self.y > i128::MIN && self.z > i128::MIN)
                    by (nonlinear_arith)
                    requires
                        self@.x * self@.x + self@.y * self@.y + self@.z * self@.z <= i128::MAX,
                        self@.x * self@.x >= 0,
                        self@.y * self@.y >= 0,
                        self@.z * self@.z >= 0;
            }
            Vector3 {
                x: div_trunc(self.x, mag),
                y: div_trunc(self.y, mag),
                z: div_trunc(self.z, mag),
            }
        }
    }
}

/// A force of magnitude `strength / r²` along `d`, computed exactly as
/// `strength·d / (r²·⌊√r²⌋)` with one truncating division per component;
/// the zero vector at zero separation.
pub open spec fn radial_force(strength: int, d: V3) -> V3 {
    let r2 = norm_sq(d);
    if r2 == 0 {
        v3_zero()
    } else {
        let den = r2 * sqrt_floor(r2);
        V3 {
            x: trunc_div(strength * d.x, den),
            y: trunc_div(strength * d.y, den),
            z: trunc_div(strength * d.z, den),
        }
    }
}

/// Gravity on the particle at `p1` due to the one at `p2`: magnitude
/// `G·m1·m2 / r²`, directed from `p1` toward `p2` (always attractive).
pub open spec fn gravity_spec(g: int, m1: int, m2: int, p1: V3, p2: V3) -> V3 {
    radial_force(g * m1 * m2, v3_sub(p2, p1))
}

/// Coulomb force on the particle at `p1` due to the one at `p2`:
/// magnitude `k·q1·q2 / r²`, directed away from `p2` for like charges
/// (repulsion) and toward it for unlike charges (attraction).
pub open spec fn electrostatic_spec(k: int, q1: int, q2: int, p1: V3, p2: V3) -> V3 {
    radial_force(-(k * q1 * q2), v3_sub(p2, p1))
}

/// The short-range strong-force placeholder: an attractive inverse-square
/// force inside the band `0 < r² ≤ STRONG_FORCE_RANGE²`, zero outside it
/// and zero at zero separation.
pub open spec fn strong_spec(s: int, p1: V3, p2: V3) -> V3 {
    let d = v3_sub(p2, p1);
    if norm_sq(d) > STRONG_FORCE_RANGE * STRONG_FORCE_RANGE {
        v3_zero()
    } else {
        radial_force(s, d)
    }
}

/// The weak-force placeholder: the zero vector for all inputs.
pub open spec fn weak_spec(p1: V3, p2: V3) -> V3 {
    v3_zero()
}

/// The components of a radial force never exceed the strength bound:
/// `|strength·d / (r²·⌊√r²⌋)| ≤ |strength| / r² ≤ |strength|`.
pub proof fn lemma_radial_force_bounded(strength: int, d: V3, c: int)
    requires
        -c <= strength <= c,
        c >= 0,
    ensures
        v3_bounded(radial_force(strength, d), c),
{
    let r2 = norm_sq(d);
    assert(d.x * d.x >= 0) by (nonlinear_arith);
    assert(d.y * d.y >= 0) by (nonlinear_arith);
    assert(d.z * d.z >= 0) by (nonlinear_arith);
    if r2 == 0 {
    } else {
        lemma_sqrt_floor_bracket(r2);
        let m = sqrt_floor(r2);
        let den = r2 * m;
        assert(m >= 1) by (nonlinear_arith)
            requires
                m >= 0,
                r2 >= 1,
                r2 < (m + 1) * (m + 1);
        assert(den >= 1) by (nonlinear_arith)
            requires r2 >= 1 && m >= 1 && den == r2 * m;
        lemma_radial_comp_bound(strength, d.x, r2, m, c);
        lemma_radial_comp_bound(strength, d.y, r2, m, c);
        lemma_radial_comp_bound(strength, d.z, r2, m, c);
    }
}

/// One component of the radial force bound: if `dc² ≤ r²`, then
/// `|trunc_div(strength·dc, r²·m)| ≤ c` for `|strength| ≤ c`.
proof fn lemma_radial_comp_bound(strength: int, dc: int, r2: int, m: int, c: int)
    requires
        -c <= strength <= c,
        c >= 0,
        r2 >= 1,
        m >= 1,
        dc * dc <= r2,
        r2 < (m + 1) * (m + 1),
    ensures
        -c <= trunc_div(strength * dc, r2 * m) <= c,
{
    assert(-m <= dc <= m) by (nonlinear_arith)
        requires dc * dc <= r2 && r2 < (m + 1) * (m + 1) && m >= 1;
    assert(-(c * (r2 * m)) <= strength * dc <= c * (r2 * m)) by (nonlinear_arith)
        requires
            -c <= strength <= c,
            c >= 0,
            -m <= dc <= m,
            m >= 1,
            r2 >= 1;
    assert(r2 * m >= 1) by (nonlinear_arith)
        requires r2 >= 1 && m >= 1;
    lemma_trunc_div_bound(strength * dc, r2 * m, c);
}

/// The force laws and the constants they are parameterized by.
#[derive(Clone, Copy)]
pub struct Physics {
    pub gravitational_constant: i128,
    pub coulomb_constant: i128,
    pub strong_force_constant: i128,
    pub weak_force_constant: i128,
}

impl Physics {
    /// The constants are admissible: nonnegative and within the scalar bound.
    pub open spec fn wf(&self) -> bool {
        &&& 0 <= self.gravitational_constant <= SCALAR_LIMIT
        &&& 0 <= self.coulomb_constant <= SCALAR_LIMIT
        &&& 0 <= self.strong_force_constant <= SCALAR_LIMIT
        &&& 0 <= self.weak_force_constant <= SCALAR_LIMIT
    }

    /// The default constants, in engine units. Gravity is weak against
    /// electrostatics at these values, as it is in nature; the strong and
    /// weak constants are placeholders.
    pub fn new() -> (p: Physics)
        ensures
            p.gravitational_constant == 1,
            p.coulomb_constant == 1000,
            p.strong_force_constant == 100,
            p.weak_force_constant == 0,
            p.wf(),
    {
        Physics {
            gravitational_constant: 1,
            coulomb_constant: 1000,
            strong_force_constant: 100,
            weak_force_constant: 0,
        }
    }

    /// Gravity between two masses, exactly `gravity_spec`.
    pub fn gravitational_force(
        &self,
        mass1: i128,
        mass2: i128,
        pos1: Vector3,
        pos2: Vector3,
    ) -> (f: Vector3)
        requires
            self.wf(),
            1 <= mass1 <= SCALAR_LIMIT,
            1 <= mass2 <= SCALAR_LIMIT,
            v3_bounded(pos1@, SCALAR_LIMIT as int),
            v3_bounded(pos2@, SCALAR_LIMIT as int),
        ensures
            f@ == gravity_spec(
                self.gravitational_constant as int,
                mass1 as int,
                mass2 as int,
                pos1@,
                pos2@,
            ),
            v3_bounded(f@, SCALAR_LIMIT * SCALAR_LIMIT * SCALAR_LIMIT),
    {
        proof {
            assert(0 <= self.gravitational_constant * mass1 <= SCALAR_LIMIT * SCALAR_LIMIT)
                by (nonlinear_arith)
                requires
                    0 <= self.gravitational_constant <= SCALAR_LIMIT,
                    1 <= mass1 <= SCALAR_LIMIT;
            assert(0 <= (self.gravitational_constant * mass1) * mass2
                <= SCALAR_LIMIT * SCALAR_LIMIT * SCALAR_LIMIT) by (nonlinear_arith)
                requires
                    0 <= self.gravitational_constant * mass1 <= SCALAR_LIMIT * SCALAR_LIMIT,
                    1 <= mass2 <= SCALAR_LIMIT;
        }
        let strength = self.gravitational_constant * mass1 * mass2;
        let d = pos2.sub(&pos1);
        radial_force_exec(strength, d)
    }

    /// The Coulomb force between two charges, exactly `electrostatic_spec`:
    /// like charges repel, unlike charges attract.
    pub fn electrostatic_force(
        &self,
        charge1: i128,
        charge2: i128,
        pos1: Vector3,
        pos2: Vector3,
    ) -> (f: Vector3)
        requires
            self.wf(),
            -SCALAR_LIMIT <= charge1 <= SCALAR_LIMIT,
            -SCALAR_LIMIT <= charge2 <= SCALAR_LIMIT,
            v3_bounded(pos1@, SCALAR_LIMIT as int),
            v3_bounded(pos2@, SCALAR_LIMIT as int),
        ensures
            f@ == electrostatic_spec(
                self.coulomb_constant as int,
                charge1 as int,
                charge2 as int,
                pos1@,
                pos2@,
            ),
            v3_bounded(f@, SCALAR_LIMIT * SCALAR_LIMIT * SCALAR_LIMIT),
    {
        proof {
            assert(-(SCALAR_LIMIT * SCALAR_LIMIT) <= self.coulomb_constant * charge1
                <= SCALAR_LIMIT * SCALAR_LIMIT) by (nonlinear_arith)
                requires
                    0 <= self.coulomb_constant <= SCALAR_LIMIT,
                    -SCALAR_LIMIT <= charge1 <= SCALAR_LIMIT;
            assert(-(SCALAR_LIMIT * SCALAR_LIMIT * SCALAR_LIMIT)
                <= (self.coulomb_constant * charge1) * charge2
                <= SCALAR_LIMIT * SCALAR_LIMIT * SCALAR_LIMIT) by (nonlinear_arith)
                requires
                    -(SCALAR_LIMIT * SCALAR_LIMIT) <= self.coulomb_constant * charge1
                        <= SCALAR_LIMIT * SCALAR_LIMIT,
                    -SCALAR_LIMIT <= charge2 <= SCALAR_LIMIT;
        }
        let strength = -(self.coulomb_constant * charge1 * charge2);
        let d = pos2.sub(&pos1);
        radial_force_exec(strength, d)
    }

    /// The strong-force placeholder, exactly `strong_spec`: inverse-square
    /// attraction inside the short-range band, zero outside it.
    pub fn strong_force(&self, pos1: Vector3, pos2: Vector3) -> (f: Vector3)
        requires
            self.wf(),
            v3_bounded(pos1@, SCALAR_LIMIT as int),
            v3_bounded(pos2@, SCALAR_LIMIT as int),
        ensures
            f@ == strong_spec(self.strong_force_constant as int, pos1@, pos2@),
            v3_bounded(f@, SCALAR_LIMIT as int),
    {
        let d = pos2.sub(&pos1);
        proof {
            lemma_norm_sq_small(d@);
        }
        let r2 = d.magnitude_squared();
        if r2 > STRONG_FORCE_RANGE * STRONG_FORCE_RANGE {
            Vector3::zero()
        } else {
            radial_force_exec(self.strong_force_constant, d)
        }
    }

    /// The weak-force placeholder: the zero vector for all inputs.
    pub fn weak_force(&self, pos1: Vector3, pos2: Vector3) -> (f: Vector3)
        ensures
            f@ == weak_spec(pos1@, pos2@),
            f@ == v3_zero(),
    {
        Vector3::zero()
    }
}

/// The squared length of a separation of admissible positions stays far
/// inside `i128`.
proof fn lemma_norm_sq_small(d: V3)
    requires
        v3_bounded(d, 2 * SCALAR_LIMIT),
    ensures
        0 <= norm_sq(d) <= 13194139533312,
{
    assert(0 <= d.x * d.x <= 4398046511104) by (nonlinear_arith)
        requires -2097152 <= d.x <= 2097152;
    assert(0 <= d.y * d.y <= 4398046511104) by (nonlinear_arith)
        requires -2097152 <= d.y <= 2097152;
    assert(0 <= d.z * d.z <= 4398046511104) by (nonlinear_arith)
        requires -2097152 <= d.z <= 2097152;
}

/// The cubed scalar bound, as a number the solver can compare against.
pub proof fn lemma_scalar_limit_cubed()
    ensures
        SCALAR_LIMIT * SCALAR_LIMIT * SCALAR_LIMIT == 1152921504606846976,
{
    assert(SCALAR_LIMIT * SCALAR_LIMIT * SCALAR_LIMIT == 1152921504606846976)
        by (nonlinear_arith)
        requires SCALAR_LIMIT == 1048576;
}

impl Physics {
    /// The net force on the particle in slot `index`: the four force laws
    /// summed against every *other* particle, in ensemble order, the
    /// subject's own slot excluded by index. A single-particle ensemble
    /// yields the zero vector.
    pub fn compute_net_force(&self, index: usize, state: &SimulationState) -> (f: Vector3)
        requires
            self.wf(),
            state.wf(),
            index < state.particles@.len(),
        ensures
            f@ == net_force_spec(*self, state.particles@, index as int),
            v3_bounded(f@, state.particles@.len() as int * 2305843009214742528),
    {
        let n = state.particles.len();
        let subject = state.particles[index];
        let mut net = Vector3::zero();
        let mut k: usize = 0;
        while k < n
            invariant
                self.wf(),
                state.wf(),
                n == state.particles@.len(),
                index < n,
                subject == state.particles@[index as int],
                k <= n,
                net@ == net_force_prefix(*self, state.particles@, index as int, k as int),
                v3_bounded(net@, k as int * 2305843009214742528),
            decreases n - k,
        {
            if k != index {
                let other = state.particles[k];
                proof {
                    assert(state.particles@[k as int].wf());
                    assert(state.particles@[index as int].wf());
                    lemma_scalar_limit_cubed();
                    lemma_pair_force_bounded(*self, subject, other);
                }
                let g = self.gravitational_force(
                    subject.mass(),
                    other.mass(),
                    subject.position,
                    other.position,
                );
                let e = self.electrostatic_force(
                    subject.charge(),
                    other.charge(),
                    subject.position,
                    other.position,
                );
                let sf = self.strong_force(subject.position, other.position);
                let wf = self.weak_force(subject.position, other.position);
                let acc = net.add(&g).add(&e).add(&sf).add(&wf);
                proof {
                    assert(acc@ == v3_add(
                        net_force_prefix(*self, state.particles@, index as int, k as int),
                        pair_force(*self, subject, other),
                    ));
                }
                net = acc;
            }
            k += 1;
        }
        net
    }

    /// The collision stub: the notification line for a detected collision
    /// between two particles. The engine resolves nothing; the caller
    /// decides where the line goes.
    pub fn collision_response(&self, particle1: &Particle, particle2: &Particle) -> (s: String)
        requires
            particle1.wf(),
            particle2.wf(),
        ensures
            s@ == "Collision detected between "@ + debug_info_spec(*particle1) + " and "@
                + debug_info_spec(*particle2),
    {
        let mut s = String::from_str("Collision detected between ");
        let d1 = particle1.debug_info();
        s.append(d1.as_str());
        s.append(" and ");
        let d2 = particle2.debug_info();
        s.append(d2.as_str());
        s
    }
}

/// The shared executable body of the force laws: `radial_force`, computed
/// with a floor square root and one truncating division per component.
fn radial_force_exec(strength: i128, d: Vector3) -> (f: Vector3)
    requires
        -(SCALAR_LIMIT * SCALAR_LIMIT * SCALAR_LIMIT) <= strength
            <= SCALAR_LIMIT * SCALAR_LIMIT * SCALAR_LIMIT,
        v3_bounded(d@, 2 * SCALAR_LIMIT),
    ensures
        f@ == radial_force(strength as int, d@),
        v3_bounded(f@, if strength >= 0 { strength as int } else { -(strength as int) }),
{
    proof {
        lemma_norm_sq_small(d@);
        if strength >= 0 {
            lemma_radial_force_bounded(strength as int, d@, strength as int);
        } else {
            lemma_radial_force_bounded(strength as int, d@, -(strength as int));
        }
    }
    let r2 = d.magnitude_squared();
    if r2 == 0 {
        Vector3::zero()
    } else {
        let m = d.magnitude();
        proof {
            lemma_sqrt_floor_bracket(r2 as int);
            assert(m * m <= r2 < (m + 1) * (m + 1));
            assert(m >= 1) by (nonlinear_arith)
                requires
                    m >= 0,
                    r2 >= 1,
                    (r2 as int) < (m + 1) * (m + 1);
            assert(-1152921504606846976 <= strength <= 1152921504606846976) by (nonlinear_arith)
                requires
                    -(SCALAR_LIMIT * SCALAR_LIMIT * SCALAR_LIMIT) <= strength
                        <= SCALAR_LIMIT * SCALAR_LIMIT * SCALAR_LIMIT,
                    SCALAR_LIMIT == 1048576;
            assert(0 < r2 * m <= 174085318024506601157689344) by (nonlinear_arith)
                requires
                    1 <= m,
                    m * m <= r2,
                    1 <= r2 <= 13194139533312;
            assert(-2417851639229258349412352 <= strength * d@.x <= 2417851639229258349412352)
                by (nonlinear_arith)
                requires
                    -1152921504606846976 <= strength <= 1152921504606846976,
                    -2097152 <= d@.x <= 2097152;
            assert(-2417851639229258349412352 <= strength * d@.y <= 2417851639229258349412352)
                by (nonlinear_arith)
                requires
                    -1152921504606846976 <= strength <= 1152921504606846976,
                    -2097152 <= d@.y <= 2097152;
            assert(-2417851639229258349412352 <= strength * d@.z <= 2417851639229258349412352)
                by (nonlinear_arith)
                requires
                    -1152921504606846976 <= strength <= 1152921504606846976,
                    -2097152 <= d@.z <= 2097152;
        }
        let den = r2 * m;
        Vector3 {
            x: div_trunc(strength * d.x, den),
            y: div_trunc(strength * d.y, den),
            z: div_trunc(strength * d.z, den),
        }
    }
}

} // verus!
