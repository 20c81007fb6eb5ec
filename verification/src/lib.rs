//! Typed client-side model of a prediction-market exchange's data streams.

pub mod data;
pub mod protocol;
pub mod stream;
