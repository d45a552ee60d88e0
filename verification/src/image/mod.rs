//! The session around the embedded runtime: the boundary model, the
//! bootstrap, the facade, and the interactive listener.

pub mod browser;
pub mod config;
pub mod core_;
pub mod env_;
pub mod inspector;
pub mod mu;
pub mod repl;
