//! Render pipeline: jobs, results, backends, and the clips an export
//! renders. Running a render (FFmpeg or the stub copy) is the host's work.

pub mod types;
pub mod backends;
pub mod segments;
