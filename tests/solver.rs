use flash_rbf::error::RbfError;
use flash_rbf::linear_algebra::{check_system_size, select_pivot};

fn bits(p: &[f64]) -> Vec<u64> {
    p.iter().map(|v| v.to_bits()).collect()
}

#[test]
fn pivot_is_largest_absolute_value() {
    assert_eq!(select_pivot(&bits(&[1.0, -7.0, 3.0, 6.5]), 0), Ok(1));
}

#[test]
fn pivot_ignores_rows_above_k() {
    assert_eq!(select_pivot(&bits(&[100.0, 2.0, -3.0, 1.0]), 1), Ok(2));
}

#[test]
fn pivot_prefers_first_of_equal_magnitudes() {
    assert_eq!(select_pivot(&bits(&[2.0, -4.0, 4.0]), 0), Ok(1));
}

#[test]
fn pivot_of_last_row() {
    assert_eq!(select_pivot(&bits(&[1.0, 2.0, 0.5]), 2), Ok(2));
}

#[test]
fn zero_column_is_singular() {
    assert_eq!(select_pivot(&bits(&[5.0, 0.0, -0.0]), 1), Err(RbfError::SingularMatrix));
}

#[test]
fn nan_pivot_is_kept() {
    assert_eq!(select_pivot(&bits(&[f64::NAN, 9.0]), 0), Ok(0));
}

#[test]
fn system_sizes_must_agree() {
    assert_eq!(check_system_size(3, 3), Ok(()));
    assert_eq!(check_system_size(3, 2), Err(RbfError::SizeMismatch));
    assert_eq!(check_system_size(0, 1), Err(RbfError::SizeMismatch));
}

#[test]
fn error_messages() {
    assert_eq!(
        RbfError::SizeMismatch.message(),
        "Incompatible design matrix and right hand side sizes!"
    );
    assert_eq!(RbfError::SingularMatrix.message(), "Zero obtained in LU[max_row][k]!");
    assert_eq!(RbfError::NumericInstability.message(), "NaN values in output");
}
