//! Stored descriptions of what is traded: series hold events, events hold
//! markets. The values are sealed: once made, they are only read as text.

pub mod event;
pub mod market;
pub mod series;
