pub mod history;
pub mod manager;
pub mod types;
pub mod validation;
pub mod naming;
