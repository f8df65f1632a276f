//! The panels of the configuration screen.

pub mod settings;
