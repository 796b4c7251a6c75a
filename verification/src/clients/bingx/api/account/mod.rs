//! Calls of the account endpoints.

pub mod sub;
