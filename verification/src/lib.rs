//! Verified core of the Jotti hosting control panel: validation, parsing,
//! configuration rendering and the decisions behind the panel's handlers.

pub mod text;
pub mod agent;
pub mod cli;
pub mod mail;
pub mod mcp;
pub mod panel;
pub mod patterns;
