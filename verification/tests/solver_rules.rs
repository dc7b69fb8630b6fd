use negforge_core::algorithm::{parse_algorithm, GreenFunctionAlgorithm};
use negforge_core::error::{exception_class, stays_with_bias_point, ErrorKind, ExceptionClass};
use negforge_core::tridiag::{constant_band_size, grow_to, tridiagonal_size, ShapeError};

#[test]
fn tridiagonal_size_accepts_consistent_bands() {
    assert_eq!(tridiagonal_size(11, 12, 11, 12), Ok(12));
    assert_eq!(tridiagonal_size(0, 1, 0, 1), Ok(1));
}

#[test]
fn tridiagonal_size_rejects_an_empty_system() {
    assert_eq!(tridiagonal_size(0, 0, 0, 0), Err(ShapeError::Empty));
    assert_eq!(constant_band_size(0, 0), Err(ShapeError::Empty));
}

#[test]
fn tridiagonal_size_rejects_mismatched_lengths() {
    assert_eq!(tridiagonal_size(12, 12, 11, 12), Err(ShapeError::Mismatch));
    assert_eq!(tridiagonal_size(11, 12, 10, 12), Err(ShapeError::Mismatch));
    assert_eq!(tridiagonal_size(11, 12, 11, 13), Err(ShapeError::Mismatch));
    assert_eq!(constant_band_size(9, 8), Err(ShapeError::Mismatch));
    assert_eq!(constant_band_size(9, 9), Ok(9));
}

#[test]
fn grow_to_keeps_contents_and_pads() {
    let mut buf = vec![7u8, 8];
    grow_to(&mut buf, 5, 0);
    assert_eq!(buf, vec![7, 8, 0, 0, 0]);
    grow_to(&mut buf, 3, 9);
    assert_eq!(buf, vec![7, 8, 0, 0, 0]);
    let mut empty: Vec<i32> = Vec::new();
    grow_to(&mut empty, 0, 1);
    assert!(empty.is_empty());
}

#[test]
fn algorithm_names_parse_exactly() {
    assert_eq!(parse_algorithm("recursive"), Some(GreenFunctionAlgorithm::Recursive));
    assert_eq!(parse_algorithm("dense"), Some(GreenFunctionAlgorithm::Dense));
    assert_eq!(parse_algorithm("Dense"), None);
    assert_eq!(parse_algorithm("recursive "), None);
    assert_eq!(parse_algorithm(""), None);
    assert_eq!(parse_algorithm("sparse"), None);
}

#[test]
fn invalid_parameters_are_value_errors() {
    assert_eq!(exception_class(ErrorKind::InvalidParameter), ExceptionClass::ValueError);
    assert_eq!(exception_class(ErrorKind::NotConverged), ExceptionClass::RuntimeError);
}

#[test]
fn only_non_convergence_stays_with_a_bias_point() {
    assert!(stays_with_bias_point(ErrorKind::NotConverged));
    assert!(!stays_with_bias_point(ErrorKind::InvalidParameter));
}
