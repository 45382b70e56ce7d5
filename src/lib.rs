//! Recursive estimation filters for noisy sensor streams: the shape rules of a linear
//! Kalman filter (`dims`), the rolling window of a moving-average filter (`window`),
//! the errors the filters report (`error`) and the labels of a plotted stream
//! (`labels`).
use vstd::prelude::*;

pub mod dims;
pub mod error;
pub mod labels;
pub mod window;
