//! Persistence decisions: autosave timing, recovery choice, snapshot
//! rotation and checksums. The files and the database are the host's.

pub mod autosave;
pub mod checksum;
pub mod recovery;
pub mod snapshots;
