//! Verified core of a Kraken spot-trading daemon: market-data bookkeeping,
//! order-entry and risk gates, request signing and feed routing.

pub mod types;
pub mod text;
pub mod order;
pub mod pairs;
pub mod window;
pub mod candles;
pub mod policy;
pub mod feed;
pub mod crypto;
pub mod auth;
pub mod bridge;
pub mod config;
pub mod flows;
