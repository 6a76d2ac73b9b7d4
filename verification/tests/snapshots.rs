use particle_sim::particle::Particle;
use particle_sim::physics::{Physics, Vector3};
use particle_sim::text::{decimal_string, int_string};

#[test]
fn decimal_rendering() {
    assert_eq!(decimal_string(0).as_str(), "0");
    assert_eq!(decimal_string(7).as_str(), "7");
    assert_eq!(decimal_string(10).as_str(), "10");
    assert_eq!(decimal_string(12345).as_str(), "12345");
    assert_eq!(decimal_string(1048576).as_str(), "1048576");
}

#[test]
fn signed_rendering() {
    assert_eq!(int_string(-987).as_str(), "-987");
    assert_eq!(int_string(-1).as_str(), "-1");
    assert_eq!(int_string(0).as_str(), "0");
    assert_eq!(int_string(42).as_str(), "42");
}

#[test]
fn debug_info_names_species_and_position() {
    let e = Particle::electron(Vector3::new(1, -2, 3), Vector3::zero());
    assert_eq!(e.debug_info().as_str(), "Electron at position: (1, -2, 3)");
    let p = Particle::proton(Vector3::new(0, 0, 1000), Vector3::zero());
    assert_eq!(p.debug_info().as_str(), "Proton at position: (0, 0, 1000)");
    let n = Particle::neutron(Vector3::new(-10, 20, -30), Vector3::new(5, 5, 5));
    assert_eq!(n.debug_info().as_str(), "Neutron at position: (-10, 20, -30)");
}

#[test]
fn collision_notification_line() {
    let ph = Physics::new();
    let a = Particle::proton(Vector3::new(0, 0, 0), Vector3::zero());
    let b = Particle::electron(Vector3::new(1, 1, 1), Vector3::zero());
    assert_eq!(
        ph.collision_response(&a, &b).as_str(),
        "Collision detected between Proton at position: (0, 0, 0) \
         and Electron at position: (1, 1, 1)"
    );
}
