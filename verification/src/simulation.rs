//! The simulation ensemble and the two-phase stepping protocol.
//!
//! A tick is calculate-then-commit: every particle's next kinematic state
//! is computed from a frozen snapshot of the current ensemble, and only
//! then are all the pending states committed at once. No particle ever
//! sees a mix of old and new states, which is what makes a tick
//! independent of the order the particles are stored in.

use vstd::prelude::*;
use crate::arith::trunc_div;
use crate::particle::{species_charge, species_mass, Particle};
use crate::physics::{
    electrostatic_spec, gravity_spec, lemma_radial_force_bounded, lemma_scalar_limit_cubed,
    strong_spec, v3_add, v3_bounded, v3_scale, v3_zero, weak_spec, Physics, V3, SCALAR_LIMIT,
};

verus! {

/// The most particles an ensemble may hold; together with `SCALAR_LIMIT`
/// it keeps a whole tick's arithmetic within `i128`.
pub const MAX_PARTICLES: usize = 1048576;

/// Every particle of the ensemble is admissible.
pub open spec fn ensemble_wf(s: Seq<Particle>) -> bool {
    forall|i: int| 0 <= i < s.len() ==> (#[trigger] s[i]).wf()
}

/// The total force on particle `a` due to particle `b`: the four force
/// laws, superposed.
pub open spec fn pair_force(ph: Physics, a: Particle, b: Particle) -> V3 {
    v3_add(
        v3_add(
            gravity_spec(
                ph.gravitational_constant as int,
                species_mass(a.species),
                species_mass(b.species),
                a.position@,
                b.position@,
            ),
            electrostatic_spec(
                ph.coulomb_constant as int,
                species_charge(a.species),
                species_charge(b.species),
                a.position@,
                b.position@,
            ),
        ),
        v3_add(
            strong_spec(ph.strong_force_constant as int, a.position@, b.position@),
            weak_spec(a.position@, b.position@),
        ),
    )
}

/// The net force on the particle in slot `i`, summed over the first `k`
/// slots in ensemble order, slot `i` itself excluded.
pub open spec fn net_force_prefix(ph: Physics, s: Seq<Particle>, i: int, k: int) -> V3
    decreases k,
{
    if k <= 0 {
        v3_zero()
    } else {
        let rest = net_force_prefix(ph, s, i, k - 1);
        if k - 1 == i {
            rest
        } else {
            v3_add(rest, pair_force(ph, s[i], s[k - 1]))
        }
    }
}

/// The net force on the particle in slot `i`: every other slot's
/// contribution, in ensemble order.
pub open spec fn net_force_spec(ph: Physics, s: Seq<Particle>, i: int) -> V3 {
    net_force_prefix(ph, s, i, s.len() as int)
}

/// The velocity change of slot `i` over a tick of `dt`: the net force,
/// times `dt`, divided by the mass, with one truncating division per
/// component.
pub open spec fn velocity_delta(ph: Physics, s: Seq<Particle>, i: int, dt: int) -> V3 {
    let net = net_force_spec(ph, s, i);
    let m = species_mass(s[i].species);
    V3 {
        x: trunc_div(net.x * dt, m),
        y: trunc_div(net.y * dt, m),
        z: trunc_div(net.z * dt, m),
    }
}

/// The velocity of slot `i` after a tick of `dt`.
pub open spec fn next_velocity_spec(ph: Physics, s: Seq<Particle>, i: int, dt: int) -> V3 {
    v3_add(s[i].velocity@, velocity_delta(ph, s, i, dt))
}

/// The position of slot `i` after a tick of `dt`: moved by the *new*
/// velocity (semi-implicit Euler, not pure explicit Euler).
pub open spec fn next_position_spec(ph: Physics, s: Seq<Particle>, i: int, dt: int) -> V3 {
    v3_add(s[i].position@, v3_scale(next_velocity_spec(ph, s, i, dt), dt))
}

/// No single pairwise interaction between admissible particles exceeds
/// this bound in any component (twice the cubed scalar bound for gravity
/// and electrostatics, plus the scalar bound for the strong force).
pub proof fn lemma_pair_force_bounded(ph: Physics, a: Particle, b: Particle)
    requires
        ph.wf(),
        a.wf(),
        b.wf(),
    ensures
        v3_bounded(pair_force(ph, a, b), 2305843009214742528),
{
    lemma_scalar_limit_cubed();
    let gs = ph.gravitational_constant as int * species_mass(a.species) * species_mass(b.species);
    assert(0 <= gs <= 1152921504606846976) by (nonlinear_arith)
        requires
            0 <= ph.gravitational_constant as int <= 1048576,
            1 <= species_mass(a.species) <= 1048576,
            1 <= species_mass(b.species) <= 1048576,
            gs == ph.gravitational_constant as int * species_mass(a.species) * species_mass(
                b.species,
            );
    let es = -(ph.coulomb_constant as int * species_charge(a.species) * species_charge(b.species));
    assert(-1152921504606846976 <= es <= 1152921504606846976) by (nonlinear_arith)
        requires
            0 <= ph.coulomb_constant as int <= 1048576,
            -1048576 <= species_charge(a.species) <= 1048576,
            -1048576 <= species_charge(b.species) <= 1048576,
            es == -(ph.coulomb_constant as int * species_charge(a.species) * species_charge(
                b.species,
            ));
    lemma_radial_force_bounded(gs, crate::physics::v3_sub(b.position@, a.position@),
        1152921504606846976);
    lemma_radial_force_bounded(es, crate::physics::v3_sub(b.position@, a.position@),
        1152921504606846976);
    lemma_radial_force_bounded(ph.strong_force_constant as int,
        crate::physics::v3_sub(b.position@, a.position@), 1048576);
}

/// The net force over any prefix of an admissible ensemble grows at most
/// linearly in the number of slots.
pub proof fn lemma_net_force_prefix_bounded(ph: Physics, s: Seq<Particle>, i: int, k: int)
    requires
        ph.wf(),
        ensemble_wf(s),
        0 <= i < s.len(),
        0 <= k <= s.len(),
    ensures
        v3_bounded(net_force_prefix(ph, s, i, k), k * 2305843009214742528),
    decreases k,
{
    if k <= 0 {
    } else {
        lemma_net_force_prefix_bounded(ph, s, i, k - 1);
        if k - 1 == i {
        } else {
            lemma_pair_force_bounded(ph, s[i], s[k - 1]);
        }
    }
}

/// The simulation ensemble: an owned, ordered collection of particles.
pub struct SimulationState {
    pub particles: Vec<Particle>,
}

impl SimulationState {
    /// The ensemble is admissible: not over-full, with every particle's
    /// kinematic state within bounds.
    pub open spec fn wf(&self) -> bool {
        &&& self.particles@.len() <= MAX_PARTICLES
        &&& ensemble_wf(self.particles@)
    }

    /// An empty ensemble.
    pub fn new() -> (s: SimulationState)
        ensures
            s.particles@.len() == 0,
            s.wf(),
    {
        SimulationState { particles: Vec::new() }
    }

    /// Append a particle to the simulation population, before or between
    /// ticks.
    pub fn add_particle(&mut self, particle: Particle)
        ensures
            final(self).particles@ == old(self).particles@.push(particle),
            (old(self).wf() && particle.wf() && old(self).particles@.len() < MAX_PARTICLES)
                ==> final(self).wf(),
    {
        self.particles.push(particle);
    }

    /// Whether the ensemble is admissible, decided at runtime; true
    /// exactly when `wf` holds.
    pub fn is_well_formed(&self) -> (ok: bool)
        ensures
            ok == self.wf(),
    {
        let n = self.particles.len();
        if n > MAX_PARTICLES {
            return false;
        }
        let mut k: usize = 0;
        while k < n
            invariant
                k <= n,
                n == self.particles@.len(),
                forall|j: int| 0 <= j < k ==> (#[trigger] self.particles@[j]).wf(),
            decreases n - k,
        {
            if !self.particles[k].is_admissible() {
                return false;
            }
            k += 1;
        }
        true
    }

    /// The calculate phase: the pending next state of every particle,
    /// computed against the frozen current ensemble. Nothing is mutated.
    pub fn compute_phase(&self, dt: i128, physics: &Physics) -> (pending: Vec<Particle>)
        requires
            self.wf(),
            physics.wf(),
            0 <= dt <= SCALAR_LIMIT,
        ensures
            pending@.len() == self.particles@.len(),
            forall|i: int|
                0 <= i < pending@.len() ==> {
                    &&& (#[trigger] pending@[i]).species == self.particles@[i].species
                    &&& pending@[i].velocity@ == next_velocity_spec(
                        *physics,
                        self.particles@,
                        i,
                        dt as int,
                    )
                    &&& pending@[i].position@ == next_position_spec(
                        *physics,
                        self.particles@,
                        i,
                        dt as int,
                    )
                },
    {
        let n = self.particles.len();
        let mut pending: Vec<Particle> = Vec::new();
        let mut k: usize = 0;
        while k < n
            invariant
                self.wf(),
                physics.wf(),
                0 <= dt <= SCALAR_LIMIT,
                k <= n,
                n == self.particles@.len(),
                pending@.len() == k,
                forall|i: int|
                    0 <= i < k ==> {
                        &&& (#[trigger] pending@[i]).species == self.particles@[i].species
                        &&& pending@[i].velocity@ == next_velocity_spec(
                            *physics,
                            self.particles@,
                            i,
                            dt as int,
                        )
                        &&& pending@[i].position@ == next_position_spec(
                            *physics,
                            self.particles@,
                            i,
                            dt as int,
                        )
                    },
            decreases n - k,
        {
            let p = self.particles[k];
            let next = p.simulate(k, dt, physics, self);
            pending.push(next);
            k += 1;
        }
        pending
    }

    /// The commit phase: replace the whole ensemble with the pending
    /// states at once. Callable only with a complete batch, so a partial
    /// tick can never become visible.
    pub fn commit_phase(&mut self, pending: Vec<Particle>)
        ensures
            final(self).particles@ == pending@,
    {
        self.particles = pending;
    }

    /// Advance the ensemble by one tick of `dt`: calculate every pending
    /// state against the frozen snapshot, then commit them all.
    pub fn step(&mut self, dt: i128, physics: &Physics)
        requires
            old(self).wf(),
            physics.wf(),
            0 <= dt <= SCALAR_LIMIT,
        ensures
            final(self).particles@.len() == old(self).particles@.len(),
            forall|i: int|
                0 <= i < old(self).particles@.len() ==> {
                    &&& (#[trigger] final(self).particles@[i]).species == old(
                        self,
                    ).particles@[i].species
                    &&& final(self).particles@[i].velocity@ == next_velocity_spec(
                        *physics,
                        old(self).particles@,
                        i,
                        dt as int,
                    )
                    &&& final(self).particles@[i].position@ == next_position_spec(
                        *physics,
                        old(self).particles@,
                        i,
                        dt as int,
                    )
                },
    {
        let pending = self.compute_phase(dt, physics);
        self.commit_phase(pending);
    }
}

} // verus!
