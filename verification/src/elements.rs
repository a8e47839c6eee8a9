//! The classical orbital elements of a body, as a plain record.

use vstd::prelude::*;

verus! {

/// Keplerian elements of a closed orbit over a scalar type `T`.
///
/// Angles are in degrees and the period in days. The record is a value: it
/// has no identity and nothing in this library mutates it.
#[derive(Clone, Copy)]
pub struct OrbitalElements<T> {
    /// Semi-major axis.
    pub a: T,
    /// Eccentricity.
    pub e: T,
    /// Inclination.
    pub i: T,
    /// Longitude of the ascending node.
    pub omega: T,
    /// Argument of periapsis.
    pub w: T,
    /// Mean longitude at epoch.
    pub l0: T,
    /// Orbital period.
    pub period: T,
}

/// A body: its orbit and the length of its day.
#[derive(Clone, Copy)]
pub struct CelestialBody<T> {
    pub orbital_elements: OrbitalElements<T>,
    pub rotation_period: T,
}

} // verus!
