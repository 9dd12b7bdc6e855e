//! Rule-based assistant: reads the project state, suggests next steps.

pub mod actions;
pub mod facts;
pub mod orchestrator;
pub mod rules;
pub mod workflow;
pub mod fades;
pub mod execute;
pub mod organize;
