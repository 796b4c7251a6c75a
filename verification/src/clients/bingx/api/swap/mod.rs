//! Calls of the swap endpoints.

pub mod account;
pub mod market;
pub mod trade;
