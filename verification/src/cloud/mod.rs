//! Optional cloud layer: never needed for the core.

pub mod auth;
pub mod backup;
pub mod providers;
pub mod service;
