//! A discrete-time N-body particle engine: electrons, protons and neutrons
//! interacting through superposed radial force laws (gravity, electrostatics,
//! and two short-range nuclear placeholders), advanced by a two-phase
//! calculate-then-commit stepping protocol.
//!
//! All quantities are exact integers in engine units, so every force and
//! every tick is computed exactly and its value is pinned down by contracts.

pub mod arith;
pub mod laws;
pub mod particle;
pub mod physics;
pub mod simulation;
pub mod text;
