//! Errors of the engine.

use vstd::prelude::*;

verus! {

/// Failure of an engine operation. I/O and serialization failures carry the
/// text of the underlying error.
#[derive(Debug)]
pub enum CinemaError {
    Validation(String),
    ProjectNotFound(String),
    CorruptedState(String),
    MigrationRequired { from: u32, to: u32 },
    Io(String),
    Serialization(String),
    Database(String),
    Storage(String),
    RecoveryFailed(String),
}

pub type Result<T> = core::result::Result<T, CinemaError>;

/// Builds a `Validation` error from a literal message.
pub fn validation_error(msg: &str) -> (e: CinemaError)
    ensures
        e matches CinemaError::Validation(m) && m@ == msg@,
{
    CinemaError::Validation(String::from_str(msg))
}

} // verus!
