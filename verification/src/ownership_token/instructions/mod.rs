//! The instructions of the ownership token.
pub mod authority_transfer;
pub mod batch_update_destinations;
pub mod claim_yd_for_treasury;
pub mod create_ot_metadata;
pub mod distribute_revenue;
pub mod initialize_ot;
pub mod mint_ot;
pub mod spend_treasury;
