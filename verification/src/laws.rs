//! The engine's laws, proved once and for all inputs: Newton's third law
//! for the pairwise force laws, the degenerate-distance guards, the
//! inverse-square scaling of truncated forces, order-independence of
//! two-phase stepping, and the zero-timestep identity.

use vstd::prelude::*;
use vstd::arithmetic::div_mod::lemma_div_of0;
use crate::arith::{
    lemma_sqrt_floor_bracket, lemma_sqrt_floor_unique, lemma_trunc_div_neg,
    lemma_trunc_div_nested, lemma_trunc_div_scale, sqrt_floor, trunc_div,
};
use crate::particle::Particle;
use crate::physics::{
    electrostatic_spec, gravity_spec, norm_sq, radial_force, strong_spec, v3_add, v3_neg,
    v3_scale, v3_sub, v3_zero, Physics, V3, STRONG_FORCE_RANGE,
};
use crate::simulation::{
    net_force_prefix, net_force_spec, next_position_spec, next_velocity_spec, pair_force,
};

verus! {

/// A radial force flips sign exactly when the separation flips: the
/// shared antisymmetry behind Newton's third law.
pub proof fn lemma_radial_antisymmetry(strength: int, d: V3)
    ensures
        radial_force(strength, v3_neg(d)) == v3_neg(radial_force(strength, d)),
{
    let nd = v3_neg(d);
    assert((-d.x) * (-d.x) == d.x * d.x) by (nonlinear_arith);
    assert((-d.y) * (-d.y) == d.y * d.y) by (nonlinear_arith);
    assert((-d.z) * (-d.z) == d.z * d.z) by (nonlinear_arith);
    assert(norm_sq(nd) == norm_sq(d));
    let r2 = norm_sq(d);
    assert(d.x * d.x >= 0) by (nonlinear_arith);
    assert(d.y * d.y >= 0) by (nonlinear_arith);
    assert(d.z * d.z >= 0) by (nonlinear_arith);
    assert(r2 >= 0);
    if r2 != 0 {
        lemma_sqrt_floor_bracket(r2);
        let m = sqrt_floor(r2);
        assert(m >= 1) by (nonlinear_arith)
            requires
                m >= 0,
                r2 >= 1,
                r2 < (m + 1) * (m + 1);
        let den = r2 * m;
        assert(den >= 1) by (nonlinear_arith)
            requires r2 >= 1 && m >= 1 && den == r2 * m;
        assert(strength * nd.x == -(strength * d.x)) by (nonlinear_arith)
            requires nd.x == -d.x;
        assert(strength * nd.y == -(strength * d.y)) by (nonlinear_arith)
            requires nd.y == -d.y;
        assert(strength * nd.z == -(strength * d.z)) by (nonlinear_arith)
            requires nd.z == -d.z;
        lemma_trunc_div_neg(strength * d.x, den);
        lemma_trunc_div_neg(strength * d.y, den);
        lemma_trunc_div_neg(strength * d.z, den);
    }
}

/// Newton's third law for gravity: the force on the first particle due to
/// the second is exactly the negation of the force on the second due to
/// the first.
pub proof fn lemma_gravitational_antisymmetry(g: int, m1: int, m2: int, p1: V3, p2: V3)
    ensures
        gravity_spec(g, m1, m2, p1, p2) == v3_neg(gravity_spec(g, m2, m1, p2, p1)),
{
    assert(g * m1 * m2 == g * m2 * m1) by (nonlinear_arith);
    assert(v3_sub(p1, p2) == v3_neg(v3_sub(p2, p1)));
    lemma_radial_antisymmetry(g * m1 * m2, v3_sub(p2, p1));
}

/// Newton's third law for the Coulomb force.
pub proof fn lemma_electrostatic_antisymmetry(k: int, q1: int, q2: int, p1: V3, p2: V3)
    ensures
        electrostatic_spec(k, q1, q2, p1, p2) == v3_neg(electrostatic_spec(k, q2, q1, p2, p1)),
{
    assert(-(k * q1 * q2) == -(k * q2 * q1)) by (nonlinear_arith);
    assert(v3_sub(p1, p2) == v3_neg(v3_sub(p2, p1)));
    lemma_radial_antisymmetry(-(k * q1 * q2), v3_sub(p2, p1));
}

/// A particle alone in its ensemble feels nothing: the net force over a
/// single-slot ensemble is the zero vector, since the only slot is the
/// subject's own.
pub proof fn lemma_single_particle_net_force(ph: Physics, s: Seq<Particle>)
    requires
        s.len() == 1,
    ensures
        net_force_spec(ph, s, 0) == v3_zero(),
{
    reveal_with_fuel(net_force_prefix, 2);
}

/// Coincident particles exert nothing on one another: at zero separation
/// every law's degenerate-distance guard fires and the contribution is
/// exactly the zero vector.
pub proof fn lemma_coincident_forces_zero(
    g: int,
    k: int,
    s: int,
    m1: int,
    m2: int,
    q1: int,
    q2: int,
    p: V3,
)
    ensures
        gravity_spec(g, m1, m2, p, p) == v3_zero(),
        electrostatic_spec(k, q1, q2, p, p) == v3_zero(),
        strong_spec(s, p, p) == v3_zero(),
{
    assert(STRONG_FORCE_RANGE * STRONG_FORCE_RANGE == 100) by (nonlinear_arith)
        requires STRONG_FORCE_RANGE == 10;
}

/// The strong force has a sharp band: beyond a squared separation of
/// `STRONG_FORCE_RANGE²` it is exactly zero, inside the band it is the
/// exact truncated inverse-square force, and at zero separation it is
/// zero again.
pub proof fn lemma_strong_force_band(s: int, p1: V3, p2: V3)
    ensures
        norm_sq(v3_sub(p2, p1)) > 100 ==> strong_spec(s, p1, p2) == v3_zero(),
        norm_sq(v3_sub(p2, p1)) <= 100 ==> strong_spec(s, p1, p2) == radial_force(
            s,
            v3_sub(p2, p1),
        ),
        norm_sq(v3_sub(p2, p1)) == 0 ==> strong_spec(s, p1, p2) == v3_zero(),
{
    assert(STRONG_FORCE_RANGE * STRONG_FORCE_RANGE == 100) by (nonlinear_arith)
        requires STRONG_FORCE_RANGE == 10;
}

/// Inverse-square scaling: when the squared separation is an exact
/// square, doubling the separation divides every component of the
/// truncated radial force by four, direction unchanged.
pub proof fn lemma_radial_force_quarters(strength: int, d: V3)
    requires
        norm_sq(d) > 0,
        sqrt_floor(norm_sq(d)) * sqrt_floor(norm_sq(d)) == norm_sq(d),
    ensures
        radial_force(strength, v3_scale(d, 2)) == (V3 {
            x: trunc_div(radial_force(strength, d).x, 4),
            y: trunc_div(radial_force(strength, d).y, 4),
            z: trunc_div(radial_force(strength, d).z, 4),
        }),
{
    let r2 = norm_sq(d);
    let r = sqrt_floor(r2);
    let d2 = v3_scale(d, 2);
    lemma_sqrt_floor_bracket(r2);
    assert(r >= 1) by (nonlinear_arith)
        requires
            r >= 0,
            r2 >= 1,
            r2 < (r + 1) * (r + 1);
    assert(norm_sq(d2) == 4 * r2) by (nonlinear_arith)
        requires
            d2.x == d.x * 2 && d2.y == d.y * 2 && d2.z == d.z * 2,
            r2 == norm_sq(d),
            norm_sq(d2) == d2.x * d2.x + d2.y * d2.y + d2.z * d2.z;
    assert((2 * r) * (2 * r) <= 4 * r2 && 4 * r2 < (2 * r + 1) * (2 * r + 1))
        by (nonlinear_arith)
        requires r * r == r2 && r >= 1;
    lemma_sqrt_floor_unique(4 * r2, 2 * r);
    let den = r2 * r;
    assert(den >= 1) by (nonlinear_arith)
        requires r2 >= 1 && r >= 1 && den == r2 * r;
    assert((4 * r2) * (2 * r) == 2 * (4 * den)) by (nonlinear_arith)
        requires den == r2 * r;
    lemma_quartered_component(strength, d.x, d2.x, den);
    lemma_quartered_component(strength, d.y, d2.y, den);
    lemma_quartered_component(strength, d.z, d2.z, den);
}

/// One component of the scaling law: dividing twice the numerator by
/// eight times the denominator is a further truncating division by four.
proof fn lemma_quartered_component(strength: int, dc: int, dc2: int, den: int)
    requires
        den >= 1,
        dc2 == dc * 2,
    ensures
        trunc_div(strength * dc2, 2 * (4 * den)) == trunc_div(trunc_div(strength * dc, den), 4),
{
    assert(strength * dc2 == 2 * (strength * dc)) by (nonlinear_arith)
        requires dc2 == dc * 2;
    lemma_trunc_div_scale(strength * dc, 4 * den, 2);
    lemma_trunc_div_nested(strength * dc, den, 4);
}

/// Inverse-square scaling for gravity between particle positions: with an
/// exact-square separation, doubling the separation quarters every
/// truncated force component.
pub proof fn lemma_gravity_quarters(g: int, m1: int, m2: int, p1: V3, d: V3)
    requires
        norm_sq(d) > 0,
        sqrt_floor(norm_sq(d)) * sqrt_floor(norm_sq(d)) == norm_sq(d),
    ensures
        gravity_spec(g, m1, m2, p1, v3_add(p1, v3_scale(d, 2))) == (V3 {
            x: trunc_div(gravity_spec(g, m1, m2, p1, v3_add(p1, d)).x, 4),
            y: trunc_div(gravity_spec(g, m1, m2, p1, v3_add(p1, d)).y, 4),
            z: trunc_div(gravity_spec(g, m1, m2, p1, v3_add(p1, d)).z, 4),
        }),
{
    assert(v3_sub(v3_add(p1, d), p1) == d);
    assert(v3_sub(v3_add(p1, v3_scale(d, 2)), p1) == v3_scale(d, 2));
    lemma_radial_force_quarters(g * m1 * m2, d);
}

/// Inverse-square scaling for the Coulomb force, as for gravity.
pub proof fn lemma_electrostatic_quarters(k: int, q1: int, q2: int, p1: V3, d: V3)
    requires
        norm_sq(d) > 0,
        sqrt_floor(norm_sq(d)) * sqrt_floor(norm_sq(d)) == norm_sq(d),
    ensures
        electrostatic_spec(k, q1, q2, p1, v3_add(p1, v3_scale(d, 2))) == (V3 {
            x: trunc_div(electrostatic_spec(k, q1, q2, p1, v3_add(p1, d)).x, 4),
            y: trunc_div(electrostatic_spec(k, q1, q2, p1, v3_add(p1, d)).y, 4),
            z: trunc_div(electrostatic_spec(k, q1, q2, p1, v3_add(p1, d)).z, 4),
        }),
{
    assert(v3_sub(v3_add(p1, d), p1) == d);
    assert(v3_sub(v3_add(p1, v3_scale(d, 2)), p1) == v3_scale(d, 2));
    lemma_radial_force_quarters(-(k * q1 * q2), d);
}

/// Two-phase stepping is order-independent: stepping the ensemble [a, b]
/// produces, slot for slot, the same next states that stepping [b, a]
/// produces in swapped slots. A single-pass in-place update would not
/// have this property.
pub proof fn lemma_two_particle_step_order_independent(
    ph: Physics,
    a: Particle,
    b: Particle,
    dt: int,
)
    ensures
        next_velocity_spec(ph, seq![a, b], 0, dt) == next_velocity_spec(ph, seq![b, a], 1, dt),
        next_position_spec(ph, seq![a, b], 0, dt) == next_position_spec(ph, seq![b, a], 1, dt),
        next_velocity_spec(ph, seq![a, b], 1, dt) == next_velocity_spec(ph, seq![b, a], 0, dt),
        next_position_spec(ph, seq![a, b], 1, dt) == next_position_spec(ph, seq![b, a], 0, dt),
{
    let s1 = seq![a, b];
    let s2 = seq![b, a];
    assert(net_force_spec(ph, s1, 0) == pair_force(ph, a, b)) by {
        reveal_with_fuel(net_force_prefix, 3);
    }
    assert(net_force_spec(ph, s2, 1) == pair_force(ph, a, b)) by {
        reveal_with_fuel(net_force_prefix, 3);
    }
    assert(net_force_spec(ph, s1, 1) == pair_force(ph, b, a)) by {
        reveal_with_fuel(net_force_prefix, 3);
    }
    assert(net_force_spec(ph, s2, 0) == pair_force(ph, b, a)) by {
        reveal_with_fuel(net_force_prefix, 3);
    }
}

/// A zero timestep is the identity: stepping with `dt == 0` leaves every
/// particle's position and velocity exactly unchanged.
pub proof fn lemma_zero_dt_identity(ph: Physics, s: Seq<Particle>, i: int)
    requires
        0 <= i < s.len(),
    ensures
        next_velocity_spec(ph, s, i, 0) == s[i].velocity@,
        next_position_spec(ph, s, i, 0) == s[i].position@,
{
    let m = crate::particle::species_mass(s[i].species);
    lemma_div_of0(m);
    assert(trunc_div(0, m) == 0);
}

} // verus!
