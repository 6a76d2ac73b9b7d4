use particle_sim::physics::{Physics, Vector3};
use particle_sim::particle::Particle;

#[test]
fn vector_components_and_zero() {
    let v = Vector3::new(3, -4, 5);
    assert_eq!(v.x, 3);
    assert_eq!(v.y, -4);
    assert_eq!(v.z, 5);
    let z = Vector3::zero();
    assert_eq!(z, Vector3::new(0, 0, 0));
}

#[test]
fn vector_arithmetic() {
    let a = Vector3::new(1, 2, 3);
    let b = Vector3::new(10, -20, 30);
    assert_eq!(a.add(&b), Vector3::new(11, -18, 33));
    assert_eq!(a.sub(&b), Vector3::new(-9, 22, -27));
    assert_eq!(b.mul(-2), Vector3::new(-20, 40, -60));
}

#[test]
fn vector_magnitude_exact() {
    let v = Vector3::new(3, 4, 0);
    assert_eq!(v.magnitude_squared(), 25);
    assert_eq!(v.magnitude(), 5);
    // the magnitude is a floor square root
    let w = Vector3::new(1, 1, 1);
    assert_eq!(w.magnitude_squared(), 3);
    assert_eq!(w.magnitude(), 1);
    assert_eq!(Vector3::zero().magnitude(), 0);
}

#[test]
fn vector_normalize_truncates() {
    assert_eq!(Vector3::new(10, 0, 0).normalize(), Vector3::new(1, 0, 0));
    assert_eq!(Vector3::new(-7, 0, 0).normalize(), Vector3::new(-1, 0, 0));
    // components smaller than the magnitude truncate to zero
    assert_eq!(Vector3::new(3, 4, 0).normalize(), Vector3::new(0, 0, 0));
    // the zero vector normalizes to itself
    assert_eq!(Vector3::zero().normalize(), Vector3::zero());
}

#[test]
fn physics_constants() {
    let ph = Physics::new();
    assert_eq!(ph.gravitational_constant, 1);
    assert_eq!(ph.coulomb_constant, 1000);
    assert_eq!(ph.strong_force_constant, 100);
    assert_eq!(ph.weak_force_constant, 0);
}

#[test]
fn coincident_positions_give_zero_forces() {
    let ph = Physics::new();
    let p = Vector3::new(5, -7, 11);
    assert_eq!(ph.gravitational_force(1836, 1836, p, p), Vector3::zero());
    assert_eq!(ph.electrostatic_force(1000, -1000, p, p), Vector3::zero());
    assert_eq!(ph.strong_force(p, p), Vector3::zero());
}

#[test]
fn gravitational_force_exact_value() {
    let ph = Physics::new();
    let p1 = Vector3::new(0, 0, 0);
    let p2 = Vector3::new(0, 0, 100);
    // strength 1*1836*1836 = 3370896, r2 = 10000, r = 100:
    // 3370896 * 100 / 1000000 = 337, toward the other particle
    let f = ph.gravitational_force(1836, 1836, p1, p2);
    assert_eq!(f, Vector3::new(0, 0, 337));
}

#[test]
fn gravitational_force_antisymmetric() {
    let ph = Physics::new();
    let p1 = Vector3::new(1, 2, 3);
    let p2 = Vector3::new(-20, 40, 3);
    let f12 = ph.gravitational_force(1836, 1, p1, p2);
    let f21 = ph.gravitational_force(1, 1836, p2, p1);
    assert_eq!(f12, f21.mul(-1));
}

#[test]
fn electrostatic_like_charges_repel() {
    let ph = Physics::new();
    let p1 = Vector3::new(0, 0, 0);
    let p2 = Vector3::new(0, 0, 100);
    // strength -(1000*1000*1000), r2 = 10000, r = 100:
    // -(10^9) * 100 / 10^6 = -100000: away from the other particle
    let f = ph.electrostatic_force(1000, 1000, p1, p2);
    assert_eq!(f, Vector3::new(0, 0, -100000));
}

#[test]
fn electrostatic_unlike_charges_attract() {
    let ph = Physics::new();
    let p1 = Vector3::new(0, 0, 0);
    let p2 = Vector3::new(0, 0, 100);
    let f = ph.electrostatic_force(-1000, 1000, p1, p2);
    assert_eq!(f, Vector3::new(0, 0, 100000));
}

#[test]
fn electrostatic_force_antisymmetric() {
    let ph = Physics::new();
    let p1 = Vector3::new(7, -3, 2);
    let p2 = Vector3::new(7, 61, 2);
    let f12 = ph.electrostatic_force(-1000, 1000, p1, p2);
    let f21 = ph.electrostatic_force(1000, -1000, p2, p1);
    assert_eq!(f12, f21.mul(-1));
}

#[test]
fn electrostatic_neutral_partner_feels_nothing() {
    let ph = Physics::new();
    let p1 = Vector3::new(0, 0, 0);
    let p2 = Vector3::new(0, 0, 5);
    assert_eq!(ph.electrostatic_force(0, 1000, p1, p2), Vector3::zero());
}

#[test]
fn doubling_separation_quarters_gravity() {
    let ph = Physics::new();
    let p1 = Vector3::new(0, 0, 0);
    let near = Vector3::new(0, 0, 100);
    let far = Vector3::new(0, 0, 200);
    let f_near = ph.gravitational_force(1836, 1836, p1, near);
    let f_far = ph.gravitational_force(1836, 1836, p1, far);
    // 337 / 4 = 84, truncating
    assert_eq!(f_near, Vector3::new(0, 0, 337));
    assert_eq!(f_far, Vector3::new(0, 0, 84));
}

#[test]
fn doubling_separation_quarters_electrostatics() {
    let ph = Physics::new();
    let p1 = Vector3::new(0, 0, 0);
    let near = Vector3::new(0, 0, 100);
    let far = Vector3::new(0, 0, 200);
    let f_near = ph.electrostatic_force(1000, 1000, p1, near);
    let f_far = ph.electrostatic_force(1000, 1000, p1, far);
    assert_eq!(f_near, Vector3::new(0, 0, -100000));
    assert_eq!(f_far, Vector3::new(0, 0, -25000));
}

#[test]
fn strong_force_inside_band() {
    let ph = Physics::new();
    let p1 = Vector3::new(0, 0, 0);
    let p2 = Vector3::new(0, 0, 10);
    // r2 = 100 is exactly on the band edge: 100 * 10 / (100 * 10) = 1
    let f = ph.strong_force(p1, p2);
    assert_eq!(f, Vector3::new(0, 0, 1));
    // a shorter separation, larger force: r2 = 4, r = 2:
    // 100 * 2 / (4 * 2) = 25
    let f_close = ph.strong_force(p1, Vector3::new(0, 0, 2));
    assert_eq!(f_close, Vector3::new(0, 0, 25));
}

#[test]
fn strong_force_sharp_boundary() {
    let ph = Physics::new();
    let p1 = Vector3::new(0, 0, 0);
    // squared separation 100: inside; 101: outside
    assert_ne!(ph.strong_force(p1, Vector3::new(0, 0, 10)), Vector3::zero());
    assert_eq!(ph.strong_force(p1, Vector3::new(1, 0, 10)), Vector3::zero());
    assert_eq!(ph.strong_force(p1, Vector3::new(0, 0, 11)), Vector3::zero());
    assert_eq!(ph.strong_force(p1, Vector3::new(0, 0, 1000)), Vector3::zero());
}

#[test]
fn weak_force_always_zero() {
    let ph = Physics::new();
    assert_eq!(ph.weak_force(Vector3::zero(), Vector3::zero()), Vector3::zero());
    assert_eq!(
        ph.weak_force(Vector3::new(1, 2, 3), Vector3::new(-4, 5, -6)),
        Vector3::zero()
    );
    assert_eq!(
        ph.weak_force(Vector3::new(0, 0, 1), Vector3::new(0, 0, 2)),
        Vector3::zero()
    );
}

#[test]
fn species_constants() {
    let e = Particle::electron(Vector3::zero(), Vector3::zero());
    let p = Particle::proton(Vector3::zero(), Vector3::zero());
    let n = Particle::neutron(Vector3::zero(), Vector3::zero());
    assert_eq!(e.mass(), 1);
    assert_eq!(p.mass(), 1836);
    assert_eq!(n.mass(), 1839);
    assert_eq!(e.charge(), -1000);
    assert_eq!(p.charge(), 1000);
    assert_eq!(n.charge(), 0);
}

#[test]
fn particle_getters_return_state() {
    let pos = Vector3::new(4, 5, 6);
    let vel = Vector3::new(-1, 0, 1);
    let p = Particle::proton(pos, vel);
    assert_eq!(p.position(), pos);
    assert_eq!(p.velocity(), vel);
}
