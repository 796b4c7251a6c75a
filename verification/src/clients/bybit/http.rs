//! HTTP client of the Bybit API: where requests go and how they are signed.

use crate::clock::epoch_millis;
use crate::error::SdkError;
use crate::http::entries_of;
use crate::http::masked_header;
use crate::http::params_or_empty;
use crate::http::BaseHttpClient;
use crate::http::Method;
use crate::http::RequestArgs;
use crate::params::joined_pairs;
use crate::params::json_object_of;
use crate::params::Entry;
use crate::params::Params;
use crate::signing::sign;
use crate::signing::signature_of;
use crate::text::decimal;
use crate::text::decimal_of;
use crate::transport::Header;
use crate::session::SharedSession;
use crate::session::SharedSessionManager;
use vstd::prelude::*;
use vstd::string::StringExecFns;

verus! {

/// The subdomain of the API for a choice of network.
pub open spec fn subdomain(demo: bool, testnet: bool) -> Seq<char> {
    if demo && testnet {
        "api-demo-testnet"@
    } else if demo {
        "api-demo"@
    } else if testnet {
        "api-testnet"@
    } else {
        "api"@
    }
}

/// The base URL of the API for a choice of network.
pub open spec fn base_url_of(demo: bool, testnet: bool) -> Seq<char> {
    "https://"@ + subdomain(demo, testnet) + ".bybit.com"@
}

/// The text that is signed for a request and, for a GET, sent as its query:
/// for a GET the parameters as `name=value` pairs with `&` between them, for
/// any other method the parameters as a JSON object. Blank values are left
/// out of both.
pub open spec fn payload_of(method: Method, entries: Seq<Entry>) -> Seq<char> {
    if method == Method::Get {
        joined_pairs(entries, false, false)
    } else {
        json_object_of(entries, false)
    }
}

/// The text that the secret signs: timestamp, API key, receive window and
/// payload, one after the other.
pub open spec fn sign_text_of(
    timestamp: i64,
    api_key: Seq<char>,
    recv_window: u32,
    payload: Seq<char>,
) -> Seq<char> {
    decimal_of(timestamp as int) + api_key + decimal_of(recv_window as int) + payload
}

/// Where a request goes: the base URL and the path, and for a GET with a
/// payload a question mark and the payload.
pub open spec fn url_of(
    base_url: Seq<char>,
    endpoint: Seq<char>,
    method: Method,
    payload: Seq<char>,
) -> Seq<char> {
    if method == Method::Get && payload.len() > 0 {
        base_url + endpoint + "?"@ + payload
    } else {
        base_url + endpoint
    }
}

/// The headers that authenticate a request.
pub open spec fn auth_headers_of(
    api_key: Seq<char>,
    signature: Seq<char>,
    timestamp: i64,
    recv_window: u32,
) -> Seq<(Seq<char>, Seq<char>)> {
    seq![
        ("X-BAPI-API-KEY"@, api_key),
        ("X-BAPI-SIGN"@, signature),
        ("X-BAPI-SIGN-TYPE"@, "2"@),
        ("X-BAPI-TIMESTAMP"@, decimal_of(timestamp as int)),
        ("X-BAPI-RECV-WINDOW"@, decimal_of(recv_window as int)),
    ]
}

/// The header that carries the referral code, where there is one.
pub open spec fn referral_headers_of(referral: Option<String>) -> Seq<(Seq<char>, Seq<char>)> {
    match referral {
        Some(code) => seq![("Referer"@, code@)],
        None => Seq::empty(),
    }
}

/// The lower-case names of the headers whose values are masked in logs.
pub open spec fn secret_headers() -> Seq<Seq<char>> {
    seq!["x-bapi-api-key"@, "x-bapi-sign"@]
}

/// The text that is signed for a request and, for a GET, sent as its query.
pub fn prepare_payload(method: Method, params: &Params) -> (payload: String)
    ensures
        payload@ == payload_of(method, params@),
{
    match method {
        Method::Get => params.to_query(false, false),
        _ => params.to_json(false),
    }
}

/// The headers as they may be logged: names in lower case, and the API key
/// and the signature cut to a few characters.
pub fn mask_headers(headers: &Vec<Header>) -> (masked: Vec<Header>)
    ensures
        masked@.map_values(|h: Header| h@) == headers@.map_values(
            |h: Header| masked_header(h@, secret_headers()),
        ),
{
    let mut secrets: Vec<String> = Vec::new();
    secrets.push("x-bapi-api-key".to_owned());
    secrets.push("x-bapi-sign".to_owned());
    assert(secrets@.map_values(|n: String| n@) =~= secret_headers());
    crate::http::mask_headers(headers, &secrets)
}

/// HTTP client of the Bybit API.
pub struct BybitHttpClient {
    base_client: BaseHttpClient,
    referral_id: Option<String>,
}

impl BybitHttpClient {
    /// The base that holds the transport and the credentials.
    pub closed spec fn base(&self) -> BaseHttpClient {
        self.base_client
    }

    /// The referral code sent with every request, if any.
    pub closed spec fn referral(&self) -> Option<String> {
        self.referral_id
    }

    /// Whether `self` is what `new` makes of these arguments.
    pub open spec fn made_from(
        &self,
        api_key: Option<String>,
        api_secret: Option<String>,
        testnet: bool,
        demo: bool,
        recv_window: u32,
        referral_id: Option<String>,
        session: Option<SharedSession>,
    ) -> bool {
        &&& self.base().holds(base_url_of(demo, testnet), api_key, api_secret, recv_window)
        &&& self.base().shared_session == (session is Some)
        &&& session matches Some(open) ==> self.base().client == open.client
        &&& self.referral() == referral_id
    }

    /// The client around a base that was made for it, or the error of the
    /// making as it came.
    pub fn from_base(base: Result<BaseHttpClient, SdkError>, referral_id: Option<String>) -> (made:
        Result<Self, SdkError>)
        ensures
            match base {
                Ok(b) => made matches Ok(client) && client.base() == b && client.referral()
                    == referral_id,
                Err(e) => made matches Err(same) && same == e,
            },
    {
        match base {
            Ok(base_client) => Ok(BybitHttpClient { base_client, referral_id }),
            Err(e) => Err(e),
        }
    }

    /// A client for the network that `testnet` and `demo` select, on the
    /// shared session's transport where `session` is open. With an open
    /// session this cannot fail; without one the only failure is the error
    /// of building the transport.
    pub fn new(
        api_key: Option<String>,
        api_secret: Option<String>,
        testnet: bool,
        demo: bool,
        recv_window: u32,
        referral_id: Option<String>,
        session: &SharedSessionManager,
    ) -> (made: Result<Self, SdkError>)
        ensures
            match made {
                Ok(client) => client.made_from(
                    api_key,
                    api_secret,
                    testnet,
                    demo,
                    recv_window,
                    referral_id,
                    session@,
                ),
                Err(e) => session@ is None && e is Http,
            },
    {
        let sub = if demo && testnet {
            "api-demo-testnet"
        } else if demo {
            "api-demo"
        } else if testnet {
            "api-testnet"
        } else {
            "api"
        };
        let base_url = "https://".to_owned().concat(sub).concat(".bybit.com");
        Self::from_base(
            BaseHttpClient::new(base_url, api_key, api_secret, recv_window, session),
            referral_id,
        )
    }

    /// Whether `args` is the request that `build_request_args_at` makes of
    /// these arguments with the signature `signature`.
    pub open spec fn builds(
        &self,
        method: Method,
        endpoint: Seq<char>,
        entries: Seq<Entry>,
        auth: bool,
        timestamp: i64,
        args: RequestArgs,
    ) -> bool {
        let payload = payload_of(method, entries);
        &&& args.url@ == url_of(self.base().base_url@, endpoint, method, payload)
        &&& args.body() == (if method == Method::Post || method == Method::Put {
            Some(entries)
        } else {
            None
        })
        &&& if auth {
            &&& self.base().api_key matches Some(key)
            &&& self.base().api_secret matches Some(secret)
            &&& args.header_pairs() == auth_headers_of(
                key@,
                signature_of(
                    secret@,
                    sign_text_of(timestamp, key@, self.base().recv_window, payload),
                ),
                timestamp,
                self.base().recv_window,
            ) + referral_headers_of(self.referral())
        } else {
            args.header_pairs() == referral_headers_of(self.referral())
        }
    }

    /// The signature of a request: the HMAC-SHA256 of timestamp, API key,
    /// receive window and payload under the secret, in lower-case hex.
    pub fn generate_signature(
        &self,
        api_key: &str,
        api_secret: &str,
        payload: &str,
        timestamp: i64,
    ) -> (signed: Result<String, SdkError>)
        ensures
            signed matches Ok(s) && s@ == signature_of(
                api_secret@,
                sign_text_of(timestamp, api_key@, self.base().recv_window, payload@),
            ),
    {
        let mut text = decimal(timestamp as i128);
        text.append(api_key);
        text.append(decimal(self.base_client.recv_window as i128).as_str());
        text.append(payload);
        sign(api_secret, text.as_str())
    }

    /// The request for a call at the time `timestamp`, in milliseconds since
    /// the epoch. A call that is not signed always gives a request. A signed
    /// call needs the API key and the secret: it fails with `Auth` without
    /// either, and gives a request with both.
    pub fn build_request_args_at(
        &self,
        method: Method,
        endpoint: &str,
        params: Option<&Params>,
        auth: bool,
        timestamp: i64,
    ) -> (built: Result<RequestArgs, SdkError>)
        ensures
            match built {
                Ok(args) => self.builds(
                    method,
                    endpoint@,
                    entries_of(params),
                    auth,
                    timestamp,
                    args,
                ),
                Err(e) => {
                    &&& auth
                    &&& e matches SdkError::Auth(m)
                    &&& if self.base().api_key is None {
                        m@ == "API key required for authenticated requests"@
                    } else {
                        m@ == "API secret required for authenticated requests"@
                    }
                },
            },
            built is Err <==> auth && (self.base().api_key is None || self.base().api_secret
                is None),
    {
        let own = params_or_empty(params);
        let payload = prepare_payload(method, &own);
        let mut url = self.base_client.base_url.clone();
        url.append(endpoint);
        if method == Method::Get && payload.as_str().unicode_len() > 0 {
            url.append("?");
            url.append(payload.as_str());
        }
        let mut headers: Vec<Header> = Vec::new();
        if auth {
            let api_key = match &self.base_client.api_key {
                Some(key) => key,
                None => {
                    return Err(
                        SdkError::Auth("API key required for authenticated requests".to_owned()),
                    );
                },
            };
            let api_secret = match &self.base_client.api_secret {
                Some(secret) => secret,
                None => {
                    return Err(
                        SdkError::Auth("API secret required for authenticated requests".to_owned()),
                    );
                },
            };
            let signature = match self.generate_signature(
                api_key.as_str(),
                api_secret.as_str(),
                payload.as_str(),
                timestamp,
            ) {
                Ok(signature) => signature,
                Err(e) => {
                    return Err(e);
                },
            };
            headers.push(Header { name: "X-BAPI-API-KEY".to_owned(), value: api_key.clone() });
            headers.push(Header { name: "X-BAPI-SIGN".to_owned(), value: signature });
            headers.push(Header { name: "X-BAPI-SIGN-TYPE".to_owned(), value: "2".to_owned() });
            headers.push(
                Header { name: "X-BAPI-TIMESTAMP".to_owned(), value: decimal(timestamp as i128) },
            );
            headers.push(
                Header {
                    name: "X-BAPI-RECV-WINDOW".to_owned(),
                    value: decimal(self.base_client.recv_window as i128),
                },
            );
        }
        if let Some(code) = &self.referral_id {
            headers.push(Header { name: "Referer".to_owned(), value: code.clone() });
        }
        let json = if method == Method::Post || method == Method::Put {
            Some(own)
        } else {
            None
        };
        let args = RequestArgs { url, headers, json };
        proof {
            let payload_text = payload_of(method, entries_of(params));
            if auth {
                let key = self.base().api_key->0;
                let secret = self.base().api_secret->0;
                assert(args.header_pairs() =~= auth_headers_of(
                    key@,
                    signature_of(
                        secret@,
                        sign_text_of(timestamp, key@, self.base().recv_window, payload_text),
                    ),
                    timestamp,
                    self.base().recv_window,
                ) + referral_headers_of(self.referral()));
            } else {
                assert(args.header_pairs() =~= referral_headers_of(self.referral()));
            }
        }
        Ok(args)
    }

    /// The request for a call at the time of the system clock. It fails with
    /// `Config` where the clock cannot be read as milliseconds since the
    /// epoch, and otherwise as `build_request_args_at` does.
    pub fn build_request_args(
        &self,
        method: Method,
        endpoint: &str,
        params: Option<&Params>,
        auth: bool,
    ) -> (built: Result<RequestArgs, SdkError>)
        ensures
            match built {
                Ok(args) => exists|timestamp: i64|
                    timestamp >= 0 && #[trigger] self.builds(
                        method,
                        endpoint@,
                        entries_of(params),
                        auth,
                        timestamp,
                        args,
                    ),
                Err(e) => e is Config || (e is Auth && auth && (self.base().api_key is None
                    || self.base().api_secret is None)),
            },
            auth && (self.base().api_key is None || self.base().api_secret is None)
                ==> built is Err,
    {
        match epoch_millis() {
            Some(timestamp) => self.build_request_args_at(
                method,
                endpoint,
                params,
                auth,
                timestamp,
            ),
            None => Err(SdkError::Config("the system clock is out of range".to_owned())),
        }
    }

    /// Whether the transport is the shared session's client.
    pub fn is_shared_session_enabled(&self) -> (shared: bool)
        ensures
            shared == self.base().shared_session,
    {
        self.base_client.is_shared_session_enabled()
    }

    /// Whether the transport is the shared session's client.
    pub fn uses_shared_session(&self) -> (shared: bool)
        ensures
            shared == self.base().shared_session,
    {
        self.base_client.is_shared_session_enabled()
    }

    /// Sets the receive window, in milliseconds, and nothing else.
    pub fn set_recv_window(&mut self, recv_window: u32)
        ensures
            final(self).base() == (BaseHttpClient { recv_window, ..old(self).base() }),
            final(self).referral() == old(self).referral(),
    {
        self.base_client.set_recv_window(recv_window)
    }

    /// The base that holds the transport and the credentials.
    pub fn base_client(&self) -> (base: &BaseHttpClient)
        ensures
            *base == self.base(),
    {
        &self.base_client
    }
}

} // verus!
