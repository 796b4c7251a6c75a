//! Calls of the spot endpoints.

pub mod account;
pub mod market;
pub mod trade;
