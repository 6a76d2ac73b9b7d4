//! The particle variants: a closed set of species, each with a fixed mass
//! and charge, carrying mutable kinematic state.

use vstd::prelude::*;
use vstd::string::StringExecFns;
use crate::arith::{div_trunc, lemma_trunc_div_bound};
use crate::physics::{v3_bounded, Physics, Vector3, SCALAR_LIMIT};
use crate::simulation::{next_position_spec, next_velocity_spec, SimulationState};
use crate::text::{int_seq, int_string};

verus! {

/// The closed set of species the engine simulates.
#[derive(Clone, Copy, Debug, PartialEq, Eq, Structural)]
pub enum Species {
    Electron,
    Proton,
    Neutron,
}

/// Species masses and charges, in engine units. The mass ratios follow the
/// physical ones (electron : proton : neutron as 1 : 1836 : 1839); the
/// elementary charge is 1000 charge units, so that truncated force
/// components keep resolution.
pub const ELECTRON_MASS: i128 = 1;

pub const PROTON_MASS: i128 = 1836;

pub const NEUTRON_MASS: i128 = 1839;

pub const ELECTRON_CHARGE: i128 = -1000;

pub const PROTON_CHARGE: i128 = 1000;

pub const NEUTRON_CHARGE: i128 = 0;

/// The fixed mass of a species: positive, always.
pub open spec fn species_mass(s: Species) -> int {
    match s {
        Species::Electron => ELECTRON_MASS as int,
        Species::Proton => PROTON_MASS as int,
        Species::Neutron => NEUTRON_MASS as int,
    }
}

/// The fixed charge of a species: zero for the neutral one.
pub open spec fn species_charge(s: Species) -> int {
    match s {
        Species::Electron => ELECTRON_CHARGE as int,
        Species::Proton => PROTON_CHARGE as int,
        Species::Neutron => NEUTRON_CHARGE as int,
    }
}

/// The display name of a species.
pub open spec fn species_name(s: Species) -> Seq<char> {
    match s {
        Species::Electron => "Electron"@,
        Species::Proton => "Proton"@,
        Species::Neutron => "Neutron"@,
    }
}

/// The human-readable snapshot of a particle: its species and position.
pub open spec fn debug_info_spec(p: Particle) -> Seq<char> {
    species_name(p.species) + " at position: ("@ + int_seq(p.position@.x) + ", "@ + int_seq(
        p.position@.y,
    ) + ", "@ + int_seq(p.position@.z) + ")"@
}

/// A point particle: a species tag that fixes its mass and charge for its
/// whole lifetime, and the kinematic state that one tick of integration
/// replaces.
#[derive(Clone, Copy, Debug, PartialEq, Eq, Structural)]
pub struct Particle {
    pub species: Species,
    pub position: Vector3,
    pub velocity: Vector3,
}

impl Particle {
    /// The particle's kinematic state is admissible: every stored
    /// coordinate and velocity component is within the scalar bound.
    pub open spec fn wf(&self) -> bool {
        &&& v3_bounded(self.position@, SCALAR_LIMIT as int)
        &&& v3_bounded(self.velocity@, SCALAR_LIMIT as int)
    }

    /// An electron at `position` moving with `velocity`.
    pub fn electron(position: Vector3, velocity: Vector3) -> (p: Particle)
        ensures
            p == (Particle { species: Species::Electron, position, velocity }),
    {
        Particle { species: Species::Electron, position, velocity }
    }

    /// A proton at `position` moving with `velocity`.
    pub fn proton(position: Vector3, velocity: Vector3) -> (p: Particle)
        ensures
            p == (Particle { species: Species::Proton, position, velocity }),
    {
        Particle { species: Species::Proton, position, velocity }
    }

    /// A neutron at `position` moving with `velocity`.
    pub fn neutron(position: Vector3, velocity: Vector3) -> (p: Particle)
        ensures
            p == (Particle { species: Species::Neutron, position, velocity }),
    {
        Particle { species: Species::Neutron, position, velocity }
    }

    /// The species-fixed mass.
    pub fn mass(&self) -> (m: i128)
        ensures
            m == species_mass(self.species),
            1 <= m <= SCALAR_LIMIT,
    {
        match self.species {
            Species::Electron => ELECTRON_MASS,
            Species::Proton => PROTON_MASS,
            Species::Neutron => NEUTRON_MASS,
        }
    }

    /// The species-fixed charge.
    pub fn charge(&self) -> (q: i128)
        ensures
            q == species_charge(self.species),
            -SCALAR_LIMIT <= q <= SCALAR_LIMIT,
    {
        match self.species {
            Species::Electron => ELECTRON_CHARGE,
            Species::Proton => PROTON_CHARGE,
            Species::Neutron => NEUTRON_CHARGE,
        }
    }

    pub fn position(&self) -> (p: Vector3)
        ensures
            p == self.position,
    {
        self.position
    }

    pub fn velocity(&self) -> (v: Vector3)
        ensures
            v == self.velocity,
    {
        self.velocity
    }

    /// One particle's next-tick state, computed against a frozen snapshot
    /// of the current ensemble: the net force on its slot, then
    /// `v' = v + (F·dt)/m` and `p' = p + v'·dt` (semi-implicit Euler — the
    /// position moves by the *new* velocity). The particle itself is not
    /// mutated; the caller commits the returned state.
    pub fn simulate(
        &self,
        index: usize,
        dt: i128,
        physics: &Physics,
        state: &SimulationState,
    ) -> (next: Particle)
        requires
            physics.wf(),
            state.wf(),
            index < state.particles@.len(),
            state.particles@[index as int] == *self,
            0 <= dt <= SCALAR_LIMIT,
        ensures
            next.species == self.species,
            next.velocity@ == next_velocity_spec(*physics, state.particles@, index as int, dt as int),
            next.position@ == next_position_spec(*physics, state.particles@, index as int, dt as int),
    {
        let net = physics.compute_net_force(index, state);
        let m = self.mass();
        proof {
            assert(v3_bounded(net@, 2417851639230357861040128));
            assert(-2535301200457611724498013257728 <= net@.x * dt
                <= 2535301200457611724498013257728) by (nonlinear_arith)
                requires
                    -2417851639230357861040128 <= net@.x <= 2417851639230357861040128,
                    0 <= dt <= 1048576;
            assert(-2535301200457611724498013257728 <= net@.y * dt
                <= 2535301200457611724498013257728) by (nonlinear_arith)
                requires
                    -2417851639230357861040128 <= net@.y <= 2417851639230357861040128,
                    0 <= dt <= 1048576;
            assert(-2535301200457611724498013257728 <= net@.z * dt
                <= 2535301200457611724498013257728) by (nonlinear_arith)
                requires
                    -2417851639230357861040128 <= net@.z <= 2417851639230357861040128,
                    0 <= dt <= 1048576;
            assert(-(2535301200457611724498013257728 * m) <= net@.x * dt
                <= 2535301200457611724498013257728 * m) by (nonlinear_arith)
                requires
                    -2535301200457611724498013257728 <= net@.x * dt
                        <= 2535301200457611724498013257728,
                    m >= 1;
            assert(-(2535301200457611724498013257728 * m) <= net@.y * dt
                <= 2535301200457611724498013257728 * m) by (nonlinear_arith)
                requires
                    -2535301200457611724498013257728 <= net@.y * dt
                        <= 2535301200457611724498013257728,
                    m >= 1;
            assert(-(2535301200457611724498013257728 * m) <= net@.z * dt
                <= 2535301200457611724498013257728 * m) by (nonlinear_arith)
                requires
                    -2535301200457611724498013257728 <= net@.z * dt
                        <= 2535301200457611724498013257728,
                    m >= 1;
            lemma_trunc_div_bound(net@.x * dt, m as int, 2535301200457611724498013257728);
            lemma_trunc_div_bound(net@.y * dt, m as int, 2535301200457611724498013257728);
            lemma_trunc_div_bound(net@.z * dt, m as int, 2535301200457611724498013257728);
        }
        let dvx = div_trunc(net.x * dt, m);
        let dvy = div_trunc(net.y * dt, m);
        let dvz = div_trunc(net.z * dt, m);
        let vel = Vector3 {
            x: self.velocity.x + dvx,
            y: self.velocity.y + dvy,
            z: self.velocity.z + dvz,
        };
        proof {
            assert(-2658455991571040671627229849247023104 <= vel@.x * dt
                <= 2658455991571040671627229849247023104) by (nonlinear_arith)
                requires
                    -2535301200457611724498014306304 <= vel@.x <= 2535301200457611724498014306304,
                    0 <= dt <= 1048576;
            assert(-2658455991571040671627229849247023104 <= vel@.y * dt
                <= 2658455991571040671627229849247023104) by (nonlinear_arith)
                requires
                    -2535301200457611724498014306304 <= vel@.y <= 2535301200457611724498014306304,
                    0 <= dt <= 1048576;
            assert(-2658455991571040671627229849247023104 <= vel@.z * dt
                <= 2658455991571040671627229849247023104) by (nonlinear_arith)
                requires
                    -2535301200457611724498014306304 <= vel@.z <= 2535301200457611724498014306304,
                    0 <= dt <= 1048576;
        }
        let pos = Vector3 {
            x: self.position.x + vel.x * dt,
            y: self.position.y + vel.y * dt,
            z: self.position.z + vel.z * dt,
        };
        Particle { species: self.species, position: pos, velocity: vel }
    }

    /// A human-readable snapshot — the species and the position — for
    /// logging and telemetry, exactly `debug_info_spec`.
    pub fn debug_info(&self) -> (s: String)
        requires
            self.wf(),
        ensures
            s@ == debug_info_spec(*self),
    {
        let name: &str = match self.species {
            Species::Electron => "Electron",
            Species::Proton => "Proton",
            Species::Neutron => "Neutron",
        };
        let mut s = String::from_str(name);
        s.append(" at position: (");
        let x = int_string(self.position.x);
        s.append(x.as_str());
        s.append(", ");
        let y = int_string(self.position.y);
        s.append(y.as_str());
        s.append(", ");
        let z = int_string(self.position.z);
        s.append(z.as_str());
        s.append(")");
        s
    }

    /// The kinematic state is admissible, decided at runtime; true exactly
    /// when `wf` holds.
    pub fn is_admissible(&self) -> (ok: bool)
        ensures
            ok == self.wf(),
    {
        -SCALAR_LIMIT <= self.position.x && self.position.x <= SCALAR_LIMIT
            && -SCALAR_LIMIT <= self.position.y && self.position.y <= SCALAR_LIMIT
            && -SCALAR_LIMIT <= self.position.z && self.position.z <= SCALAR_LIMIT
            && -SCALAR_LIMIT <= self.velocity.x && self.velocity.x <= SCALAR_LIMIT
            && -SCALAR_LIMIT <= self.velocity.y && self.velocity.y <= SCALAR_LIMIT
            && -SCALAR_LIMIT <= self.velocity.z && self.velocity.z <= SCALAR_LIMIT
    }
}

} // verus!
