//! Data carried over the mobile bridge; the bindings themselves are the
//! host's.

pub mod types;
