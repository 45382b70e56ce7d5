use vstd::prelude::*;

use crate::error::FilterError;

verus! {

/// The number of rows and columns of a matrix; a column vector has one column.
#[derive(Clone, Copy, Debug, PartialEq, Eq, Structural)]
pub struct Shape {
    pub rows: usize,
    pub cols: usize,
}

/// The shape of the product `a * b`, or `None` where it is undefined
/// (either operand undefined, or the inner dimensions differ).
pub open spec fn prod_shape(a: Option<Shape>, b: Option<Shape>) -> Option<Shape> {
    match (a, b) {
        (Some(a), Some(b)) => if a.cols == b.rows {
            Some(Shape { rows: a.rows, cols: b.cols })
        } else {
            None
        },
        _ => None,
    }
}

/// The shape of the sum or the difference of `a` and `b`: defined only where both
/// operands are defined and have the same shape.
pub open spec fn sum_shape(a: Option<Shape>, b: Option<Shape>) -> Option<Shape> {
    match (a, b) {
        (Some(a), Some(b)) => if a == b {
            Some(a)
        } else {
            None
        },
        _ => None,
    }
}

/// The shape of the transpose of `a`.
pub open spec fn transpose_shape(a: Option<Shape>) -> Option<Shape> {
    match a {
        Some(a) => Some(Shape { rows: a.cols, cols: a.rows }),
        None => None,
    }
}

/// The shape of the inverse of `a`: defined only for a square matrix.
pub open spec fn inverse_shape(a: Option<Shape>) -> Option<Shape> {
    match a {
        Some(a) => if a.rows == a.cols {
            Some(a)
        } else {
            None
        },
        None => None,
    }
}

/// Whether the four matrices of a linear system model fit together: the state
/// transition `a` is square (n×n), the process noise covariance `q` is n×n, the
/// observation matrix `h` has n columns (m×n), and the measurement noise covariance
/// `r` is m×m.
pub open spec fn model_consistent(a: Shape, q: Shape, h: Shape, r: Shape) -> bool {
    &&& a.rows == a.cols
    &&& q == a
    &&& h.cols == a.cols
    &&& r.rows == h.rows
    &&& r.cols == h.rows
}

/// The dimensions of a consistent system model: `state` is n, `measurement` is m.
#[derive(Clone, Copy, Debug, PartialEq, Eq, Structural)]
pub struct ModelDims {
    pub state: usize,
    pub measurement: usize,
}

impl ModelDims {
    /// n×1: a state vector.
    pub open spec fn state_vector(self) -> Shape {
        Shape { rows: self.state, cols: 1 }
    }

    /// n×n: the state transition and every state covariance.
    pub open spec fn state_square(self) -> Shape {
        Shape { rows: self.state, cols: self.state }
    }

    /// m×1: a measurement vector.
    pub open spec fn measurement_vector(self) -> Shape {
        Shape { rows: self.measurement, cols: 1 }
    }

    /// m×m: the measurement noise and innovation covariances.
    pub open spec fn measurement_square(self) -> Shape {
        Shape { rows: self.measurement, cols: self.measurement }
    }

    /// m×n: the observation matrix.
    pub open spec fn observation(self) -> Shape {
        Shape { rows: self.measurement, cols: self.state }
    }

    /// n×m: the Kalman gain.
    pub open spec fn gain(self) -> Shape {
        Shape { rows: self.state, cols: self.measurement }
    }
}

/// Where the model's shapes fit together, every operation of a predict-correct cycle
/// has operands of matching shapes: started from an n×1 state, an n×n covariance and
/// an n×m gain, and fed an m×1 measurement, the cycle yields an n×1 state, n×n
/// covariances and an n×m gain again, so that it never fails on shapes.
pub proof fn lemma_cycle_well_shaped(
    a: Shape,
    q: Shape,
    h: Shape,
    r: Shape,
    state: Shape,
    covariance: Shape,
    gain: Shape,
    measurement: Shape,
)
    requires
        model_consistent(a, q, h, r),
        state == (ModelDims { state: a.rows, measurement: h.rows }).state_vector(),
        covariance == (ModelDims { state: a.rows, measurement: h.rows }).state_square(),
        gain == (ModelDims { state: a.rows, measurement: h.rows }).gain(),
        measurement == (ModelDims { state: a.rows, measurement: h.rows }).measurement_vector(),
    ensures
        // corrected state: x + K (z - H x)
        sum_shape(
            Some(state),
            prod_shape(Some(gain), sum_shape(Some(measurement), prod_shape(Some(h), Some(state)))),
        ) == Some(state),
        // corrected covariance: P - K H P
        sum_shape(Some(covariance), prod_shape(prod_shape(Some(gain), Some(h)), Some(covariance)))
            == Some(covariance),
        // predicted state: A x
        prod_shape(Some(a), Some(state)) == Some(state),
        // predicted covariance: A P A^T + Q
        sum_shape(
            prod_shape(prod_shape(Some(a), Some(covariance)), transpose_shape(Some(a))),
            Some(q),
        ) == Some(covariance),
        // innovation covariance: H P H^T + R
        sum_shape(
            prod_shape(prod_shape(Some(h), Some(covariance)), transpose_shape(Some(h))),
            Some(r),
        ) == Some(r),
        // gain: P H^T (H P H^T + R)^-1
        prod_shape(
            prod_shape(Some(covariance), transpose_shape(Some(h))),
            inverse_shape(
                sum_shape(
                    prod_shape(prod_shape(Some(h), Some(covariance)), transpose_shape(Some(h))),
                    Some(r),
                ),
            ),
        ) == Some(gain),
{
}

/// A model whose observation matrix has another number of columns than its state
/// transition has (say a 2×2 transition and an observation matrix of 3 columns) is
/// refused with `DimensionMismatch`, whatever the other two matrices are.
pub proof fn lemma_observation_width_checked(a: Shape, q: Shape, h: Shape, r: Shape)
    requires
        h.cols != a.cols,
    ensures
        !model_consistent(a, q, h, r),
{
}

/// Checks the shapes of the four matrices of a system model, and gives its state
/// dimension n and measurement dimension m where they fit together.
pub fn validate_model(a: Shape, q: Shape, h: Shape, r: Shape) -> (res: Result<ModelDims, FilterError>)
    ensures
        res == (if model_consistent(a, q, h, r) {
            Ok(ModelDims { state: a.rows, measurement: h.rows })
        } else {
            Err(FilterError::DimensionMismatch)
        }),
{
    if a.rows == a.cols && q.rows == a.rows && q.cols == a.cols && h.cols == a.cols && r.rows
        == h.rows && r.cols == h.rows {
        Ok(ModelDims { state: a.rows, measurement: h.rows })
    } else {
        Err(FilterError::DimensionMismatch)
    }
}

impl ModelDims {
    /// Checks that an estimate handed to a filter is an n×1 state and an n×n covariance.
    pub fn check_estimate(&self, state: Shape, covariance: Shape) -> (res: Result<(), FilterError>)
        ensures
            res == (if state == self.state_vector() && covariance == self.state_square() {
                Ok(())
            } else {
                Err(FilterError::DimensionMismatch)
            }),
    {
        if state.rows == self.state && state.cols == 1 && covariance.rows == self.state
            && covariance.cols == self.state {
            Ok(())
        } else {
            Err(FilterError::DimensionMismatch)
        }
    }

    /// Checks that a measurement is an m×1 vector.
    pub fn check_measurement(&self, measurement: Shape) -> (res: Result<(), FilterError>)
        ensures
            res == (if measurement == self.measurement_vector() {
                Ok(())
            } else {
                Err(FilterError::DimensionMismatch)
            }),
    {
        if measurement.rows == self.measurement && measurement.cols == 1 {
            Ok(())
        } else {
            Err(FilterError::DimensionMismatch)
        }
    }
}

} // verus!
