//! Client-side building blocks for two REST trading venues: a shared-session
//! manager, a time-bounded cache of client handles, request signing and the
//! typed parameters of the venues' endpoints.

pub mod cache;
pub mod caches;
pub mod clients;
pub mod clock;
pub mod error;
pub mod handle;
pub mod http;
pub mod json;
pub mod params;
pub mod session;
pub mod signing;
pub mod text;
pub mod transport;
pub mod utils;

pub use caches::BingxClientsCache;
pub use caches::BybitClientsCache;
pub use caches::ClientsCache;
pub use clients::bingx;
pub use clients::bybit;
pub use session::SharedSessionManager;
