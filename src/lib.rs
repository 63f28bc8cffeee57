//! Quote and profitability engine for cross-venue arbitrage between a
//! concentrated-liquidity pool and a constant-product pool.

pub mod decimal;
pub mod error;
pub mod models;
pub mod dex;
pub mod utils;
pub mod constant_product;
pub mod concentrated;
pub mod gas;
pub mod analytics;
pub mod config;
pub mod cex;
pub mod abi;
pub mod venues;
pub mod service;
