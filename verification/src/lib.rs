//! Verified control structure of a two-body Kepler propagator.
//!
//! The library fixes how an orbit is sampled and how the eccentric anomaly is
//! iterated; it is generic in the scalar type and never does arithmetic on it.
//! The caller supplies the numeric kernels as functions, and every contract
//! here is stated over what those functions promise.

pub mod elements;
pub mod sampler;
pub mod solver;
