use kalman_filter_for_beginners_rust::dims::{validate_model, ModelDims, Shape};
use kalman_filter_for_beginners_rust::error::FilterError;

fn shape(rows: usize, cols: usize) -> Shape {
    Shape { rows, cols }
}

#[test]
fn observation_with_three_columns_against_two_states_is_refused() {
    let res = validate_model(shape(2, 2), shape(2, 2), shape(1, 3), shape(1, 1));
    assert_eq!(res, Err(FilterError::DimensionMismatch));
}

#[test]
fn consistent_scalar_model_is_accepted() {
    let res = validate_model(shape(1, 1), shape(1, 1), shape(1, 1), shape(1, 1));
    assert_eq!(res, Ok(ModelDims { state: 1, measurement: 1 }));
}

#[test]
fn position_velocity_model_is_accepted() {
    let res = validate_model(shape(2, 2), shape(2, 2), shape(1, 2), shape(1, 1));
    assert_eq!(res, Ok(ModelDims { state: 2, measurement: 1 }));
}

#[test]
fn non_square_state_transition_is_refused() {
    let res = validate_model(shape(2, 3), shape(2, 3), shape(1, 3), shape(1, 1));
    assert_eq!(res, Err(FilterError::DimensionMismatch));
}

#[test]
fn process_noise_of_wrong_size_is_refused() {
    let res = validate_model(shape(2, 2), shape(3, 3), shape(1, 2), shape(1, 1));
    assert_eq!(res, Err(FilterError::DimensionMismatch));
}

#[test]
fn measurement_noise_of_wrong_size_is_refused() {
    assert_eq!(
        validate_model(shape(2, 2), shape(2, 2), shape(2, 2), shape(1, 1)),
        Err(FilterError::DimensionMismatch)
    );
    assert_eq!(
        validate_model(shape(2, 2), shape(2, 2), shape(2, 2), shape(2, 1)),
        Err(FilterError::DimensionMismatch)
    );
}

#[test]
fn estimate_must_match_state_dimension() {
    let dims = ModelDims { state: 2, measurement: 1 };
    assert_eq!(dims.check_estimate(shape(2, 1), shape(2, 2)), Ok(()));
    assert_eq!(dims.check_estimate(shape(1, 1), shape(2, 2)), Err(FilterError::DimensionMismatch));
    assert_eq!(dims.check_estimate(shape(2, 2), shape(2, 2)), Err(FilterError::DimensionMismatch));
    assert_eq!(dims.check_estimate(shape(2, 1), shape(2, 1)), Err(FilterError::DimensionMismatch));
}

#[test]
fn measurement_must_match_measurement_dimension() {
    let dims = ModelDims { state: 2, measurement: 1 };
    assert_eq!(dims.check_measurement(shape(1, 1)), Ok(()));
    assert_eq!(dims.check_measurement(shape(2, 1)), Err(FilterError::DimensionMismatch));
    assert_eq!(dims.check_measurement(shape(1, 2)), Err(FilterError::DimensionMismatch));
}
