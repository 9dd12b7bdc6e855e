//! Verified core of the CinemaStudio editing engine: project state model,
//! validation, undo/redo history, device-adaptive quality policies, render
//! scheduling, playback state machine and the rule-based assistant.

pub mod ai_orchestrator;
pub mod beta;
pub mod billing;
pub mod cloud;
pub mod crash_reporting;
pub mod device_profiler;
pub mod error;
pub mod event_bus;
pub mod export;
pub mod ffi;
pub mod ids;
pub mod media_decoder;
pub mod native_bridge;
pub mod ordering;
pub mod paths;
pub mod persistence;
pub mod playback_engine;
pub mod project_state;
pub mod release_readiness;
pub mod render_pipeline;
pub mod render_scheduler;
pub mod text;
