//! The exchange: constant-product and ladder pools that pair every token with the reward token.
pub mod amm;
pub mod concentrated;
pub mod constants;
pub mod constraints;
pub mod cpi;
pub mod events;
pub mod instructions;
pub mod laws;
pub mod layout;
pub mod nexus;
pub mod pool_creation;
pub mod program;
pub mod solvency;
pub mod state;
pub mod steps;
pub mod validation;
