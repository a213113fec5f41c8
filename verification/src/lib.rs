//! Verified core of a Telegram bot that follows a Starknet token: the
//! dialogue routing, the decisions of each handler, the texts it sends, and
//! the arithmetic that turns an on-chain balance into whole tokens.

pub mod decimal;
pub mod state;
pub mod routing;
pub mod starknet;
pub mod balance;
pub mod endpoints;
pub mod market;
pub mod json;
pub mod laws;
