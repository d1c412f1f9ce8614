//! Launcher logic for the GitHub activity summarizer companion server:
//! platform asset naming, translation of user settings into environment
//! variables, the launch directive, and the decisions of binary provisioning.
pub mod error;
pub mod guarantees;
pub mod launch;
pub mod platform;
pub mod provision;
pub mod settings;
