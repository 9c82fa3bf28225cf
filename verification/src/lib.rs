//! Areal Finance on-chain programs: the exchange and the ownership token.
pub mod account;
pub mod actions;
pub mod address;
pub mod args;
pub mod bytes;
pub mod calls;
pub mod error;
pub mod laws;
pub mod math;
pub mod native_dex;
pub mod ownership_token;
pub mod programs;
pub mod seeds;
pub mod steps;
