//! Client of the BingX API.

pub mod api;
pub mod http;
pub mod types;

use crate::error::SdkError;
use crate::session::SharedSessionManager;
use http::BingxHttpClient;
use vstd::prelude::*;

verus! {

/// Client of the BingX API.
pub struct BingxClient {
    http_client: BingxHttpClient,
}

impl BingxClient {
    /// The HTTP client that carries this client's requests.
    pub closed spec fn http_client(&self) -> BingxHttpClient {
        self.http_client
    }

    /// The client around an HTTP client that was made for it, or the error of
    /// the making as it came.
    pub fn from_http(http: Result<BingxHttpClient, SdkError>) -> (made: Result<Self, SdkError>)
        ensures
            match http {
                Ok(h) => made matches Ok(client) && client.http_client() == h,
                Err(e) => made matches Err(same) && same == e,
            },
    {
        match http {
            Ok(http_client) => Ok(BingxClient { http_client }),
            Err(e) => Err(e),
        }
    }

    /// A client for the production API, or for the simulated one where
    /// `demo` is set. See `BingxHttpClient::new`.
    pub fn new(
        api_key: Option<String>,
        api_secret: Option<String>,
        demo: bool,
        recv_window: u32,
        session: &SharedSessionManager,
    ) -> (made: Result<Self, SdkError>)
        ensures
            match made {
                Ok(client) => client.http_client().made_from(
                    api_key,
                    api_secret,
                    demo,
                    recv_window,
                    session@,
                ),
                Err(e) => session@ is None && e is Http,
            },
    {
        Self::from_http(BingxHttpClient::new(api_key, api_secret, demo, recv_window, session))
    }

    /// The HTTP client that carries this client's requests.
    pub fn http(&self) -> (http: &BingxHttpClient)
        ensures
            *http == self.http_client(),
    {
        &self.http_client
    }
}

} // verus!
