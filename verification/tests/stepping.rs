use particle_sim::particle::Particle;
use particle_sim::physics::{Physics, Vector3};
use particle_sim::simulation::SimulationState;

fn two_protons() -> SimulationState {
    let mut state = SimulationState::new();
    state.add_particle(Particle::proton(Vector3::new(0, 0, 0), Vector3::zero()));
    state.add_particle(Particle::proton(Vector3::new(0, 0, 1000), Vector3::zero()));
    state
}

#[test]
fn empty_ensemble_and_add() {
    let mut state = SimulationState::new();
    assert_eq!(state.particles.len(), 0);
    assert!(state.is_well_formed());
    state.add_particle(Particle::electron(Vector3::new(1, 2, 3), Vector3::zero()));
    assert_eq!(state.particles.len(), 1);
    assert!(state.is_well_formed());
}

#[test]
fn inadmissible_particle_detected() {
    let mut state = SimulationState::new();
    // a coordinate beyond the scalar bound of 1048576
    state.add_particle(Particle::proton(Vector3::new(2000000, 0, 0), Vector3::zero()));
    assert!(!state.is_well_formed());
}

#[test]
fn single_particle_feels_no_force() {
    let ph = Physics::new();
    let mut state = SimulationState::new();
    state.add_particle(Particle::proton(Vector3::new(17, -5, 3), Vector3::zero()));
    assert_eq!(ph.compute_net_force(0, &state), Vector3::zero());
}

#[test]
fn net_force_on_two_protons() {
    let ph = Physics::new();
    let state = two_protons();
    // electrostatic repulsion -1000 plus gravitational attraction +3
    assert_eq!(ph.compute_net_force(0, &state), Vector3::new(0, 0, -997));
    assert_eq!(ph.compute_net_force(1, &state), Vector3::new(0, 0, 997));
}

#[test]
fn coincident_pair_contributes_nothing() {
    let ph = Physics::new();
    let mut state = SimulationState::new();
    let spot = Vector3::new(9, 9, 9);
    state.add_particle(Particle::electron(spot, Vector3::zero()));
    state.add_particle(Particle::electron(spot, Vector3::zero()));
    assert_eq!(ph.compute_net_force(0, &state), Vector3::zero());
    assert_eq!(ph.compute_net_force(1, &state), Vector3::zero());
}

#[test]
fn simulate_computes_next_state() {
    let ph = Physics::new();
    let state = two_protons();
    let p0 = state.particles[0];
    let next = p0.simulate(0, 100, &ph, &state);
    // dv = (-997 * 100) / 1836 = -54, then the position moves by the new
    // velocity: -54 * 100 = -5400
    assert_eq!(next.velocity(), Vector3::new(0, 0, -54));
    assert_eq!(next.position(), Vector3::new(0, 0, -5400));
}

#[test]
fn two_protons_released_fly_apart_symmetrically() {
    let ph = Physics::new();
    let mut state = two_protons();
    state.step(100, &ph);
    let a = state.particles[0];
    let b = state.particles[1];
    // equal and opposite displacement and velocity
    assert_eq!(a.velocity(), Vector3::new(0, 0, -54));
    assert_eq!(b.velocity(), Vector3::new(0, 0, 54));
    assert_eq!(a.position(), Vector3::new(0, 0, -5400));
    assert_eq!(b.position(), Vector3::new(0, 0, 1000 + 5400));
    // the midpoint of the pair is unchanged
    assert_eq!(a.position().z + b.position().z, 1000);
}

#[test]
fn zero_timestep_changes_nothing() {
    let ph = Physics::new();
    let mut state = two_protons();
    state.add_particle(Particle::electron(Vector3::new(3, 4, 0), Vector3::new(1, 1, 1)));
    let before = state.particles.clone();
    state.step(0, &ph);
    assert_eq!(state.particles, before);
}

#[test]
fn stepping_is_order_independent() {
    let ph = Physics::new();
    let a = Particle::proton(Vector3::new(0, 0, 0), Vector3::zero());
    let b = Particle::electron(Vector3::new(0, 0, 100), Vector3::zero());

    let mut fwd = SimulationState::new();
    fwd.add_particle(a);
    fwd.add_particle(b);
    fwd.step(7, &ph);

    let mut rev = SimulationState::new();
    rev.add_particle(b);
    rev.add_particle(a);
    rev.step(7, &ph);

    assert_eq!(fwd.particles[0], rev.particles[1]);
    assert_eq!(fwd.particles[1], rev.particles[0]);
}

#[test]
fn compute_phase_mutates_nothing_until_commit() {
    let ph = Physics::new();
    let mut state = two_protons();
    let before = state.particles.clone();
    let pending = state.compute_phase(100, &ph);
    // the calculate phase leaves the ensemble untouched
    assert_eq!(state.particles, before);
    assert_eq!(pending.len(), 2);
    // the commit phase installs the whole batch at once
    state.commit_phase(pending);
    assert_eq!(state.particles[0].position(), Vector3::new(0, 0, -5400));
    assert_eq!(state.particles[1].position(), Vector3::new(0, 0, 6400));
}

#[test]
fn attraction_pulls_opposite_charges_together() {
    let ph = Physics::new();
    let mut state = SimulationState::new();
    state.add_particle(Particle::proton(Vector3::new(0, 0, 0), Vector3::zero()));
    state.add_particle(Particle::electron(Vector3::new(0, 0, 100), Vector3::zero()));
    // the proton is pulled toward the electron, the electron toward the
    // proton; the electron, being far lighter, moves much farther
    state.step(10, &ph);
    let p = state.particles[0];
    let e = state.particles[1];
    assert!(p.velocity().z > 0);
    assert!(e.velocity().z < 0);
    assert!(e.velocity().z.abs() > p.velocity().z.abs());
}
