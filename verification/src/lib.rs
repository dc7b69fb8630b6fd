//! Verified integer and symbolic logic of the NEGForge 1D ballistic-MOSFET
//! simulator: gate geometries, the device grid and its region layout, the
//! shape rules of the tridiagonal solvers, the self-consistent iteration
//! budget, and the option/error policies of the front ends.

pub mod geometry;
pub mod grid;
pub mod tridiag;
pub mod error;
pub mod algorithm;
pub mod iteration;
