//! The decisions of a trader on short-lived up/down markets.

pub mod asset_map;
pub mod backtest;
pub mod balance;
pub mod calendar;
pub mod config;
pub mod config_log;
pub mod execution;
pub mod gates;
pub mod halt;
pub mod indicator_store;
pub mod json;
pub mod laws;
pub mod live;
pub mod machine;
pub mod machine_laws;
pub mod marketdata;
pub mod num;
pub mod order;
pub mod redemption;
pub mod report;
pub mod signal;
pub mod strategies;
pub mod telegram;
pub mod text;
pub mod types;
pub mod unwind;
pub mod weather;
