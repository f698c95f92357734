//! Discovery, live pricing, and paired-order arbitrage logic for short-lived
//! two-outcome prediction markets.
//!
//! Prices and sizes are fixed-point integers in thousandths of a unit, so a
//! price of 0.28 is stored as 280 and a size of 40 contracts as 40000.

pub mod config;
pub mod engine;
pub mod feed;
pub mod market;
pub mod price;
pub mod schedule;
pub mod store;
