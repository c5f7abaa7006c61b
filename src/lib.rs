//! Rules engine of a two-dimensional artificial-life arena: genomes, energy
//! bookkeeping, bites and sharing, adhesion joints, reproduction and the live
//! tuning record that configures all of it.
//!
//! Fractional quantities (rates, scents, distances, speeds, forces, impulses)
//! are fixed-point integers in millionths: see `vector::UNIT`.

pub mod vector;
pub mod tuning;
pub mod genome;
pub mod energy;
pub mod chance;
pub mod world;
pub mod contact;
pub mod adhesion;
pub mod aging;
pub mod reproduction;
