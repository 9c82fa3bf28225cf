//! What the ownership token promises, in the terms of each operation's inputs and results.
pub mod admitting;
pub mod distributing;
pub mod governing;
pub mod keeping;
pub mod registering;
pub mod spending;
