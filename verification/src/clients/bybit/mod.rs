//! Client of the Bybit API.

pub mod api;
pub mod http;
pub mod types;

use crate::error::SdkError;
use crate::session::SharedSessionManager;
use http::BybitHttpClient;
use vstd::prelude::*;

verus! {

/// Client of the Bybit API.
pub struct BybitClient {
    http_client: BybitHttpClient,
}

impl BybitClient {
    /// The HTTP client that carries this client's requests.
    pub closed spec fn http_client(&self) -> BybitHttpClient {
        self.http_client
    }

    /// The client around an HTTP client that was made for it, or the error of
    /// the making as it came.
    pub fn from_http(http: Result<BybitHttpClient, SdkError>) -> (made: Result<Self, SdkError>)
        ensures
            match http {
                Ok(h) => made matches Ok(client) && client.http_client() == h,
                Err(e) => made matches Err(same) && same == e,
            },
    {
        match http {
            Ok(http_client) => Ok(BybitClient { http_client }),
            Err(e) => Err(e),
        }
    }

    /// A client for the network that `testnet` and `demo` select. See
    /// `BybitHttpClient::new`.
    pub fn new(
        api_key: Option<String>,
        api_secret: Option<String>,
        testnet: bool,
        demo: bool,
        recv_window: u32,
        referral_id: Option<String>,
        session: &SharedSessionManager,
    ) -> (made: Result<Self, SdkError>)
        ensures
            match made {
                Ok(client) => client.http_client().made_from(
                    api_key,
                    api_secret,
                    testnet,
                    demo,
                    recv_window,
                    referral_id,
                    session@,
                ),
                Err(e) => session@ is None && e is Http,
            },
    {
        Self::from_http(
            BybitHttpClient::new(
                api_key,
                api_secret,
                testnet,
                demo,
                recv_window,
                referral_id,
                session,
            ),
        )
    }

    /// Whether the transport is the shared session's client.
    pub fn uses_shared_session(&self) -> (shared: bool)
        ensures
            shared == self.http_client().base().shared_session,
    {
        self.http_client.uses_shared_session()
    }

    /// The HTTP client that carries this client's requests.
    pub fn http(&self) -> (http: &BybitHttpClient)
        ensures
            *http == self.http_client(),
    {
        &self.http_client
    }
}

} // verus!
