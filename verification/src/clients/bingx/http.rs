//! HTTP client of the BingX API: where requests go and how they are signed.

use crate::clock::epoch_millis;
use crate::error::SdkError;
use crate::http::entries_of;
use crate::http::masked_header;
use crate::http::params_or_empty;
use crate::http::BaseHttpClient;
use crate::http::Method;
use crate::http::RequestArgs;
use crate::params::any_structure;
use crate::params::joined_pairs;
use crate::params::put;
use crate::params::value_of;
use crate::params::Entry;
use crate::params::ParamValue;
use crate::params::Params;
use crate::params::ValueView;
use crate::signing::sign;
use crate::signing::signature_of;
use crate::text::chars_of;
use crate::text::decimal;
use crate::text::decimal_of;
use crate::text::find_from;
use crate::text::first_occurrence;
use crate::transport::Header;
use crate::session::SharedSession;
use crate::session::SharedSessionManager;
use vstd::prelude::*;
use vstd::string::StringExecFns;

verus! {

/// Base URL of the production API.
pub open spec fn live_url() -> Seq<char> {
    "https://open-api.bingx.com"@
}

/// Base URL of the simulated-trading API.
pub open spec fn demo_url() -> Seq<char> {
    "https://open-api-vst.bingx.com"@
}

/// The parameter that carries the receive window.
pub open spec fn recv_entry(recv_window: u32) -> Entry {
    ("recvWindow"@, ValueView::Int(recv_window as int))
}

/// Joined pairs with the timestamp after them as one more pair.
pub open spec fn stamped(joined: Seq<char>, timestamp: i64) -> Seq<char> {
    (if joined.len() > 0 {
        joined + "&timestamp="@
    } else {
        "timestamp="@
    }) + decimal_of(timestamp as int)
}

/// What is signed for a GET: every parameter as a pair, then the timestamp.
pub open spec fn query_sign_text(entries: Seq<Entry>, timestamp: i64) -> Seq<char> {
    stamped(joined_pairs(entries, true, false), timestamp)
}

/// The query of a GET: every parameter as a pair, then the timestamp. Where
/// any value holds an opening brace or bracket, every value is
/// percent-encoded.
pub open spec fn query_url_params(entries: Seq<Entry>, timestamp: i64) -> Seq<char> {
    stamped(joined_pairs(entries, true, any_structure(entries)), timestamp)
}

/// The parameters of any other method: the timestamp is added as a string
/// unless the call names one itself.
pub open spec fn with_timestamp(entries: Seq<Entry>, timestamp: i64) -> Seq<Entry> {
    if value_of(entries, "timestamp"@) is None {
        put(entries, ("timestamp"@, ValueView::Text(decimal_of(timestamp as int))))
    } else {
        entries
    }
}

/// What is signed for a request.
pub open spec fn sign_text_of(method: Method, entries: Seq<Entry>, timestamp: i64) -> Seq<char> {
    if method == Method::Get {
        query_sign_text(entries, timestamp)
    } else {
        joined_pairs(with_timestamp(entries, timestamp), true, false)
    }
}

/// The body of a request that is not a GET: its parameters with the
/// timestamp as a number and, where it is signed, the signature.
pub open spec fn body_of(entries: Seq<Entry>, timestamp: i64, signature: Option<Seq<char>>) -> Seq<
    Entry,
> {
    let timed = put(
        with_timestamp(entries, timestamp),
        ("timestamp"@, ValueView::Int(timestamp as int)),
    );
    match signature {
        Some(s) => put(timed, ("signature"@, ValueView::Text(s))),
        None => timed,
    }
}

/// The lower-case names of the headers whose values are masked in logs.
pub open spec fn secret_headers() -> Seq<Seq<char>> {
    seq!["x-bx-apikey"@]
}

/// A URL as it may be logged: the value of its first `signature=` parameter,
/// which ends before the next `&` or with the URL, replaced by three stars.
pub open spec fn masked_url(url: Seq<char>) -> Seq<char> {
    match first_occurrence(url, "signature="@, 0) {
        None => url,
        Some(at) => {
            let start = at + "signature="@.len();
            match first_occurrence(url, "&"@, start) {
                Some(amp) => url.take(start) + "***"@ + url.skip(amp),
                None => url.take(start) + "***"@,
            }
        },
    }
}

/// The headers as they may be logged: names in lower case, and the API key
/// cut to a few characters.
pub fn mask_headers(headers: &Vec<Header>) -> (masked: Vec<Header>)
    ensures
        masked@.map_values(|h: Header| h@) == headers@.map_values(
            |h: Header| masked_header(h@, secret_headers()),
        ),
{
    let mut secrets: Vec<String> = Vec::new();
    secrets.push("x-bx-apikey".to_owned());
    assert(secrets@.map_values(|n: String| n@) =~= secret_headers());
    crate::http::mask_headers(headers, &secrets)
}

/// A URL as it may be logged, with the value of its signature hidden.
pub fn mask_signature(url: &str) -> (masked: String)
    ensures
        masked@ == masked_url(url@),
{
    let text = chars_of(url);
    let mark = chars_of("signature=");
    let amp = chars_of("&");
    match find_from(&text, &mark, 0) {
        None => url.to_owned(),
        Some(at) => {
            assert(text@.len() == text.len());
            let start = at + mark.len();
            let mut masked = url.substring_char(0, start).to_owned();
            masked.append("***");
            if let Some(rest) = find_from(&text, &amp, start) {
                masked.append(url.substring_char(rest, text.len()));
            }
            masked
        },
    }
}

/// HTTP client of the BingX API.
pub struct BingxHttpClient {
    base_client: BaseHttpClient,
}

impl BingxHttpClient {
    /// The base that holds the transport and the credentials.
    pub closed spec fn base(&self) -> BaseHttpClient {
        self.base_client
    }

    /// Whether `self` is what `new` makes of these arguments.
    pub open spec fn made_from(
        &self,
        api_key: Option<String>,
        api_secret: Option<String>,
        demo: bool,
        recv_window: u32,
        session: Option<SharedSession>,
    ) -> bool {
        &&& self.base().holds(
            if demo {
                demo_url()
            } else {
                live_url()
            },
            api_key,
            api_secret,
            recv_window,
        )
        &&& self.base().shared_session == (session is Some)
        &&& session matches Some(open) ==> self.base().client == open.client
    }

    /// The client around a base that was made for it, or the error of the
    /// making as it came.
    pub fn from_base(base: Result<BaseHttpClient, SdkError>) -> (made: Result<Self, SdkError>)
        ensures
            match base {
                Ok(b) => made matches Ok(client) && client.base() == b,
                Err(e) => made matches Err(same) && same == e,
            },
    {
        match base {
            Ok(base_client) => Ok(BingxHttpClient { base_client }),
            Err(e) => Err(e),
        }
    }

    /// A client for the production API, or for the simulated one where
    /// `demo` is set, on the shared session's transport where `session` is
    /// open. With an open session this cannot fail; without one the only
    /// failure is the error of building the transport.
    pub fn new(
        api_key: Option<String>,
        api_secret: Option<String>,
        demo: bool,
        recv_window: u32,
        session: &SharedSessionManager,
    ) -> (made: Result<Self, SdkError>)
        ensures
            match made {
                Ok(client) => client.made_from(api_key, api_secret, demo, recv_window, session@),
                Err(e) => session@ is None && e is Http,
            },
    {
        let base_url = if demo {
            "https://open-api-vst.bingx.com".to_owned()
        } else {
            "https://open-api.bingx.com".to_owned()
        };
        Self::from_base(BaseHttpClient::new(base_url, api_key, api_secret, recv_window, session))
    }

    /// Whether `args` is the request that `build_request_args_at` makes of
    /// these arguments.
    pub open spec fn builds(
        &self,
        method: Method,
        endpoint: Seq<char>,
        entries: Seq<Entry>,
        auth: bool,
        timestamp: i64,
        args: RequestArgs,
    ) -> bool {
        let own = put(entries, recv_entry(self.base().recv_window));
        let signature = if auth {
            Some(signature_of(self.base().api_secret->0@, sign_text_of(method, own, timestamp)))
        } else {
            None
        };
        &&& auth ==> self.base().api_key is Some && self.base().api_secret is Some
        &&& args.header_pairs() == (if auth {
            seq![("X-BX-APIKEY"@, self.base().api_key->0@)]
        } else {
            Seq::empty()
        })
        &&& if method == Method::Get {
            &&& args.url@ == self.base().base_url@ + endpoint + "?"@ + query_url_params(
                own,
                timestamp,
            ) + (match signature {
                Some(s) => "&signature="@ + s,
                None => Seq::empty(),
            })
            &&& args.body() is None
        } else {
            &&& args.url@ == self.base().base_url@ + endpoint
            &&& args.body() == Some(body_of(own, timestamp, signature))
        }
    }

    /// The signature of a payload: its HMAC-SHA256 under the secret, in
    /// lower-case hex.
    pub fn generate_signature(&self, api_secret: &str, payload: &str) -> (signed: Result<
        String,
        SdkError,
    >)
        ensures
            signed matches Ok(s) && s@ == signature_of(api_secret@, payload@),
    {
        sign(api_secret, payload)
    }

    /// What is signed for a request and, for a GET, its query. For any other
    /// method the timestamp joins the parameters as a string unless the call
    /// names one itself.
    pub fn prepare_payload(
        &self,
        method: Method,
        params: &mut Params,
        timestamp: i64,
    ) -> (payload: (String, Option<String>))
        ensures
            payload.0@ == sign_text_of(method, old(params)@, timestamp),
            if method == Method::Get {
                &&& final(params)@ == old(params)@
                &&& payload.1 matches Some(query)
                &&& query@ == query_url_params(old(params)@, timestamp)
            } else {
                &&& final(params)@ == with_timestamp(old(params)@, timestamp)
                &&& payload.1 is None
            },
    {
        let stamp = decimal(timestamp as i128);
        match method {
            Method::Get => {
                let mut sign_text = params.to_query(true, false);
                if sign_text.as_str().unicode_len() > 0 {
                    sign_text.append("&timestamp=");
                } else {
                    sign_text.append("timestamp=");
                }
                sign_text.append(stamp.as_str());
                let mut query = params.to_query(true, params.has_structure());
                if query.as_str().unicode_len() > 0 {
                    query.append("&timestamp=");
                } else {
                    query.append("timestamp=");
                }
                query.append(stamp.as_str());
                (sign_text, Some(query))
            },
            _ => {
                if params.get("timestamp").is_none() {
                    params.insert("timestamp".to_owned(), ParamValue::Text(stamp));
                }
                (params.to_query(true, false), None)
            },
        }
    }

    /// The request for a call at the time `timestamp`, in milliseconds since
    /// the epoch. A call that is not signed always gives a request. A signed
    /// call needs the API key and the secret: it fails with `Auth` without
    /// either, and gives a request with both.
    pub fn build_request_args_at(
        &self,
        method: Method,
        endpoint: &str,
        params: Option<&Params>,
        auth: bool,
        timestamp: i64,
    ) -> (built: Result<RequestArgs, SdkError>)
        ensures
            match built {
                Ok(args) => self.builds(
                    method,
                    endpoint@,
                    entries_of(params),
                    auth,
                    timestamp,
                    args,
                ),
                Err(e) => {
                    &&& auth
                    &&& e matches SdkError::Auth(m)
                    &&& if self.base().api_key is None {
                        m@ == "API key must be set for authenticated requests."@
                    } else {
                        m@ == "API secret must be set for authenticated requests."@
                    }
                },
            },
            built is Err <==> auth && (self.base().api_key is None || self.base().api_secret
                is None),
    {
        let mut own = params_or_empty(params);
        let mut headers: Vec<Header> = Vec::new();
        if auth {
            let api_key = match &self.base_client.api_key {
                Some(key) => key,
                None => {
                    return Err(
                        SdkError::Auth(
                            "API key must be set for authenticated requests.".to_owned(),
                        ),
                    );
                },
            };
            if self.base_client.api_secret.is_none() {
                return Err(
                    SdkError::Auth("API secret must be set for authenticated requests.".to_owned()),
                );
            }
            headers.push(Header { name: "X-BX-APIKEY".to_owned(), value: api_key.clone() });
        }
        own.insert("recvWindow".to_owned(), ParamValue::Int(self.base_client.recv_window as i128));
        let ghost sent = own@;
        let (sign_text, query) = self.prepare_payload(method, &mut own, timestamp);
        let signature = if auth {
            match self.generate_signature(
                self.base_client.api_secret.as_ref().unwrap().as_str(),
                sign_text.as_str(),
            ) {
                Ok(signature) => Some(signature),
                Err(e) => {
                    return Err(e);
                },
            }
        } else {
            None
        };
        let mut url = self.base_client.base_url.clone();
        url.append(endpoint);
        let json = match method {
            Method::Get => {
                if let Some(query) = &query {
                    url.append("?");
                    url.append(query.as_str());
                }
                if let Some(signature) = &signature {
                    url.append("&signature=");
                    url.append(signature.as_str());
                }
                None
            },
            _ => {
                own.insert("timestamp".to_owned(), ParamValue::Int(timestamp as i128));
                if let Some(signature) = signature {
                    own.insert("signature".to_owned(), ParamValue::Text(signature));
                }
                Some(own)
            },
        };
        let args = RequestArgs { url, headers, json };
        proof {
            if auth {
                assert(args.header_pairs() =~= seq![("X-BX-APIKEY"@, self.base().api_key->0@)]);
            } else {
                assert(args.header_pairs() =~= Seq::<(Seq<char>, Seq<char>)>::empty());
            }
            if method == Method::Get {
                assert(args.url@ =~= self.base().base_url@ + endpoint@ + "?"@ + query_url_params(
                    sent,
                    timestamp,
                ) + (if auth {
                    "&signature="@ + signature_of(
                        self.base().api_secret->0@,
                        sign_text_of(method, sent, timestamp),
                    )
                } else {
                    Seq::empty()
                }));
            }
        }
        Ok(args)
    }

    /// The request for a call at the time of the system clock. It fails with
    /// `Config` where the clock cannot be read as milliseconds since the
    /// epoch, and otherwise as `build_request_args_at` does.
    pub fn build_request_args(
        &self,
        method: Method,
        endpoint: &str,
        params: Option<&Params>,
        auth: bool,
    ) -> (built: Result<RequestArgs, SdkError>)
        ensures
            match built {
                Ok(args) => exists|timestamp: i64|
                    timestamp >= 0 && #[trigger] self.builds(
                        method,
                        endpoint@,
                        entries_of(params),
                        auth,
                        timestamp,
                        args,
                    ),
                Err(e) => e is Config || (e is Auth && auth && (self.base().api_key is None
                    || self.base().api_secret is None)),
            },
            auth && (self.base().api_key is None || self.base().api_secret is None)
                ==> built is Err,
    {
        match epoch_millis() {
            Some(timestamp) => self.build_request_args_at(
                method,
                endpoint,
                params,
                auth,
                timestamp,
            ),
            None => Err(SdkError::Config("the system clock is out of range".to_owned())),
        }
    }

    /// Whether the transport is the shared session's client.
    pub fn is_shared_session_enabled(&self) -> (shared: bool)
        ensures
            shared == self.base().shared_session,
    {
        self.base_client.is_shared_session_enabled()
    }

    /// Sets the receive window, in milliseconds, and nothing else.
    pub fn set_recv_window(&mut self, recv_window: u32)
        ensures
            final(self).base() == (BaseHttpClient { recv_window, ..old(self).base() }),
    {
        self.base_client.set_recv_window(recv_window)
    }

    /// The base that holds the transport and the credentials.
    pub fn base_client(&self) -> (base: &BaseHttpClient)
        ensures
            *base == self.base(),
    {
        &self.base_client
    }
}

} // verus!
