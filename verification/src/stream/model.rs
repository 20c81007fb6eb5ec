//! What is traded: series hold events, events hold markets.

pub mod event;
pub mod market;
pub mod series;
