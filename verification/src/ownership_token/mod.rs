//! The ownership token: tokenised ownership of a project, with revenue distribution.
pub mod constants;
pub mod constraints;
pub mod events;
pub mod instructions;
pub mod laws;
pub mod layout;
pub mod program;
pub mod state;
pub mod steps;
