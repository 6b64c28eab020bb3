use octane::shapes::{check_box_bounds, shape_size, BoxBoundsError, check_shape, dims_text, flattened_scalar_len, flattened_shape, require_matrix, stacked_shape, std_layout, step_shape, FlattenError, ShapeMismatch, StdLayout};

#[test]
fn step_shape_prepends_env_count() {
    assert_eq!(step_shape(4, &vec![3, 2]), vec![4, 3, 2]);
    assert_eq!(step_shape(8, &vec![]), vec![8]);
}

#[test]
fn shapes_must_match_exactly() {
    assert_eq!(check_shape(&vec![4, 3], &vec![4, 3]), Ok(()));
    let err = check_shape(&vec![4, 3], &vec![4, 2]).unwrap_err();
    assert_eq!(err, ShapeMismatch { expected: vec![4, 3], got: vec![4, 2] });
    assert_eq!(err.message(), "Shape mismatch: expected [4, 3], got [4, 2]");
    assert!(check_shape(&vec![4], &vec![4, 1]).is_err());
}

#[test]
fn flattening_merges_leading_dims() {
    assert_eq!(flattened_shape(&vec![5, 4, 3]), Ok(vec![20, 3]));
    assert_eq!(flattened_shape(&vec![5, 4]), Ok(vec![20]));
    assert_eq!(flattened_shape(&vec![5]), Err(FlattenError::TooFewDims));
    assert_eq!(FlattenError::TooFewDims.message(), "Tensor must have at least 2 dimensions");
}

#[test]
fn scalar_buffers_have_two_dims() {
    assert_eq!(flattened_scalar_len(&vec![6, 2]), Ok(12));
    let err = flattened_scalar_len(&vec![6, 2, 1]).unwrap_err();
    assert_eq!(err.message(), "Scalar buffer must have 2 dimensions, got [6, 2, 1]");
    assert_eq!(dims_text(&vec![]), "[]");
}

#[test]
fn frame_stack_shapes() {
    assert_eq!(stacked_shape(&vec![4], 3), vec![12]);
    assert_eq!(stacked_shape(&vec![84, 84], 4), vec![4, 84, 84]);
}

#[test]
fn distributions_need_matrices() {
    assert_eq!(require_matrix(&vec![4, 3]), Ok(()));
    let err = require_matrix(&vec![12]).unwrap_err();
    assert_eq!(err, ShapeMismatch { expected: vec![0, 0], got: vec![12] });
}

#[test]
fn shared_std_layouts() {
    assert_eq!(std_layout(&vec![2], 2), StdLayout::PerDimension);
    assert_eq!(std_layout(&vec![1, 2], 2), StdLayout::SingleRow);
    assert_eq!(std_layout(&vec![1, 3], 2), StdLayout::AsGiven);
    assert_eq!(std_layout(&vec![8, 2], 2), StdLayout::AsGiven);
}

#[test]
fn box_bounds_must_fit_the_shape() {
    assert_eq!(shape_size(&vec![2, 3, 4]), 24);
    assert_eq!(shape_size(&vec![]), 1);
    assert_eq!(shape_size(&vec![5, 0, 7]), 0);
    assert_eq!(check_box_bounds(6, 6, &vec![2, 3]), Ok(()));
    let err = check_box_bounds(6, 5, &vec![2, 3]).unwrap_err();
    assert_eq!(err, BoxBoundsError::LengthMismatch);
    assert_eq!(err.message(), "Low and high bounds must have same length");
    let err = check_box_bounds(4, 4, &vec![2, 3]).unwrap_err();
    assert_eq!(err.message(), "Bounds length 4 doesn't match shape [2, 3]");
}
