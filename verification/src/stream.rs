//! The streaming side: exchanges, the markets traded on them, and the
//! channels on which their data arrives.

pub mod exchange;
pub mod model;
pub mod subscription;
pub mod time;
