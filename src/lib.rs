//! Radial basis function interpolation: the decisions of the engine that are
//! independent of floating-point arithmetic, stated and proved over the
//! IEEE-754 binary64 bit patterns of the values involved.
use vstd::prelude::*;

pub mod calibration;
pub mod error;
pub mod ieee;
pub mod kernel;
pub mod linear_algebra;
pub mod points;

verus! {

} // verus!
