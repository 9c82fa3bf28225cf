//! The instructions of the exchange.
pub mod add_liquidity;
pub mod authority_transfer;
pub mod claim_lp_fees;
pub mod compound_yield;
pub mod compress_liquidity;
pub mod create_concentrated_pool;
pub mod create_pool;
pub mod grow_liquidity;
pub mod initialize_dex;
pub mod initialize_nexus;
pub mod nexus_add_liquidity;
pub mod nexus_claim_rewards;
pub mod nexus_deposit;
pub mod nexus_record_deposit;
pub mod nexus_remove_liquidity;
pub mod nexus_swap;
pub mod nexus_withdraw_profits;
pub mod pause;
pub mod remove_liquidity;
pub mod shift_liquidity;
pub mod swap;
pub mod update_areal_fee_destination;
pub mod update_dex_config;
pub mod update_nexus_manager;
pub mod update_pool_creators;
pub mod zap_liquidity;
