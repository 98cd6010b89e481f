use vstd::prelude::*;

verus! {

/// The ways an operation of the interpolation engine can fail.
#[derive(Clone, Copy, Debug, PartialEq, Eq, Structural)]
pub enum RbfError {
    /// Training points and outputs differ in count, or a linear system's
    /// right-hand side does not match the matrix's row count.
    SizeMismatch,
    /// A pivot of the LU factorisation is exactly zero.
    SingularMatrix,
    /// A predicted value is not a number.
    NumericInstability,
}

impl RbfError {
    /// A human-readable description of the failure.
    pub fn message(&self) -> (r: &'static str) {
        match self {
            RbfError::SizeMismatch => "Incompatible design matrix and right hand side sizes!",
            RbfError::SingularMatrix => "Zero obtained in LU[max_row][k]!",
            RbfError::NumericInstability => "NaN values in output",
        }
    }
}

} // verus!
