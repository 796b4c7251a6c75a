//! The clients of the two exchanges.

pub mod bingx;
pub mod bybit;
