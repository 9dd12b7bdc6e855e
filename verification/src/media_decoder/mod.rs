//! Video decode layer; native backends attach here.

pub mod stub;
pub mod types;
pub mod registry;
