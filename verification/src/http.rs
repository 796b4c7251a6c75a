//! What the clients of both exchanges share: the HTTP method of a request and
//! the base of a client, which holds the transport handle and the credentials.

use crate::error::SdkError;
use crate::params::Entry;
use crate::params::Params;
use crate::transport::Header;
use crate::session::SharedSessionManager;
use crate::text::lowercase_of;
use crate::text::to_lowercase;
use crate::transport::build_private;
use reqwest::Client;
use std::sync::Arc;
use vstd::prelude::*;
use vstd::string::StringExecFns;

verus! {

/// The HTTP methods that the exchanges' endpoints use.
#[derive(Clone, Copy, Debug, PartialEq, Eq, Structural)]
pub enum Method {
    Get,
    Post,
    Put,
    Delete,
}

impl Method {
    /// The name of the method as it stands in a request line.
    pub open spec fn name(self) -> Seq<char> {
        match self {
            Method::Get => "GET"@,
            Method::Post => "POST"@,
            Method::Put => "PUT"@,
            Method::Delete => "DELETE"@,
        }
    }

    /// The method that a name stands for, if it stands for one.
    pub open spec fn named(name: Seq<char>) -> Option<Method> {
        if name == "GET"@ {
            Some(Method::Get)
        } else if name == "POST"@ {
            Some(Method::Post)
        } else if name == "PUT"@ {
            Some(Method::Put)
        } else if name == "DELETE"@ {
            Some(Method::Delete)
        } else {
            None
        }
    }

    /// The method that `name` stands for. Any other name than those of the
    /// four methods is refused with `Config`.
    pub fn from_name(name: &str) -> (method: Result<Method, SdkError>)
        ensures
            match method {
                Ok(m) => Method::named(name@) == Some(m),
                Err(e) => {
                    &&& Method::named(name@) is None
                    &&& e matches SdkError::Config(m)
                    &&& m@ == "Unsupported HTTP method: "@ + name@
                },
            },
    {
        let given = name.to_owned();
        if given == "GET".to_owned() {
            Ok(Method::Get)
        } else if given == "POST".to_owned() {
            Ok(Method::Post)
        } else if given == "PUT".to_owned() {
            Ok(Method::Put)
        } else if given == "DELETE".to_owned() {
            Ok(Method::Delete)
        } else {
            let mut message = "Unsupported HTTP method: ".to_owned();
            message.append(name);
            Err(SdkError::Config(message))
        }
    }

    /// The name of the method as it stands in a request line.
    pub fn as_str(&self) -> (name: &'static str)
        ensures
            name@ == self.name(),
    {
        match self {
            Method::Get => "GET",
            Method::Post => "POST",
            Method::Put => "PUT",
            Method::Delete => "DELETE",
        }
    }
}

/// A call of an endpoint before it is signed: the method, the path, the
/// parameters and whether the exchange wants it signed.
#[derive(Debug)]
pub struct ApiRequest {
    pub method: Method,
    pub endpoint: String,
    pub params: Option<Params>,
    pub auth: bool,
}

impl ApiRequest {
    /// Whether the call is this one.
    pub open spec fn calls(
        &self,
        method: Method,
        endpoint: Seq<char>,
        auth: bool,
        entries: Option<Seq<Entry>>,
    ) -> bool {
        &&& self.method == method
        &&& self.endpoint@ == endpoint
        &&& self.auth == auth
        &&& match self.params {
            Some(params) => entries == Some(params@),
            None => entries is None,
        }
    }

    /// The call of `endpoint` by `method` with `params`.
    pub fn new(method: Method, endpoint: &str, params: Option<Params>, auth: bool) -> (request:
        Self)
        ensures
            request.calls(
                method,
                endpoint@,
                auth,
                match params {
                    Some(p) => Some(p@),
                    None => None,
                },
            ),
    {
        ApiRequest { method, endpoint: endpoint.to_owned(), params, auth }
    }
}

/// A request ready to send: where it goes, the headers it carries and the
/// JSON object of its body, if it has one.
#[derive(Debug)]
pub struct RequestArgs {
    pub url: String,
    pub headers: Vec<Header>,
    pub json: Option<Params>,
}

impl RequestArgs {
    /// The headers as pairs of name and value, in their order.
    pub open spec fn header_pairs(&self) -> Seq<(Seq<char>, Seq<char>)> {
        self.headers@.map_values(|h: Header| h@)
    }

    /// The members of the body, in the order of their names, if there is a
    /// body.
    pub open spec fn body(&self) -> Option<Seq<Entry>> {
        match self.json {
            Some(params) => Some(params@),
            None => None,
        }
    }
}

/// What an optional reference refers to.
pub open spec fn deref_of<T>(o: Option<&T>) -> Option<T> {
    match o {
        Some(r) => Some(*r),
        None => None,
    }
}

/// The parameters of a call, or none where it has none.
pub open spec fn entries_of(params: Option<&Params>) -> Seq<Entry> {
    match params {
        Some(p) => p@,
        None => Seq::empty(),
    }
}

/// A copy of the parameters of a call, or none where it has none.
pub fn params_or_empty(params: Option<&Params>) -> (copy: Params)
    ensures
        copy@ == entries_of(params),
{
    match params {
        Some(p) => p.copy(),
        None => Params::new(),
    }
}

/// The value of a secret header as it may be logged: at most its first six
/// characters, then three dots.
pub open spec fn masked_value(value: Seq<char>) -> Seq<char> {
    value.take(if value.len() < 6 {
        value.len() as int
    } else {
        6
    }) + "..."@
}

/// A header under its lower-case name as it may be logged: the value masked
/// where the name is one of `secrets`.
pub open spec fn masked_under(lower: Seq<char>, value: Seq<char>, secrets: Seq<Seq<char>>) -> (
    Seq<char>,
    Seq<char>,
) {
    (
        lower,
        if secrets.contains(lower) {
            masked_value(value)
        } else {
            value
        },
    )
}

/// A header as it may be logged: the name in lower case, and the value
/// masked where the lower-case name is one of `secrets`.
pub open spec fn masked_header(header: (Seq<char>, Seq<char>), secrets: Seq<Seq<char>>) -> (
    Seq<char>,
    Seq<char>,
) {
    masked_under(lowercase_of(header.0), header.1, secrets)
}

/// Whether `name` is one of `names`.
fn is_among(name: &String, names: &Vec<String>) -> (found: bool)
    ensures
        found == names@.map_values(|n: String| n@).contains(name@),
{
    let ghost views = names@.map_values(|n: String| n@);
    let mut i: usize = 0;
    while i < names.len()
        invariant
            i <= names@.len(),
            views == names@.map_values(|n: String| n@),
            forall|j: int| 0 <= j < i ==> views[j] != name@,
        decreases names@.len() - i,
    {
        if names[i] == *name {
            assert(views[i as int] == name@);
            return true;
        }
        i += 1;
    }
    false
}

/// A header under its lower-case name as it may be logged: the value cut to
/// its first six characters and three dots where the name is one of
/// `secrets`.
pub fn mask_header(lower: String, value: &str, secrets: &Vec<String>) -> (masked: Header)
    ensures
        masked@ == masked_under(lower@, value@, secrets@.map_values(|n: String| n@)),
{
    let value = if is_among(&lower, secrets) {
        let n = value.unicode_len();
        let keep = if n < 6 {
            n
        } else {
            6
        };
        let mut cut = value.substring_char(0, keep).to_owned();
        cut.append("...");
        cut
    } else {
        value.to_owned()
    };
    Header { name: lower, value }
}

/// The headers as they may be logged: each name in lower case, and the
/// value of each header that `secrets` names cut to a few characters.
pub fn mask_headers(headers: &Vec<Header>, secrets: &Vec<String>) -> (masked: Vec<Header>)
    ensures
        masked@.map_values(|h: Header| h@) == headers@.map_values(
            |h: Header| masked_header(h@, secrets@.map_values(|n: String| n@)),
        ),
{
    let ghost names = secrets@.map_values(|n: String| n@);
    let mut masked: Vec<Header> = Vec::new();
    let mut i: usize = 0;
    while i < headers.len()
        invariant
            i <= headers@.len(),
            names == secrets@.map_values(|n: String| n@),
            masked@.len() == i,
            forall|j: int|
                0 <= j < i ==> (#[trigger] masked@[j])@ == masked_header(headers@[j]@, names),
        decreases headers@.len() - i,
    {
        let lower = to_lowercase(headers[i].name.as_str());
        masked.push(mask_header(lower, headers[i].value.as_str(), secrets));
        i += 1;
    }
    masked
}

/// The base of an exchange client.
pub struct BaseHttpClient {
    /// The transport: the pooled client of the shared session, or a client
    /// of this base's own.
    pub client: Arc<Client>,
    /// Scheme and host that every endpoint path is appended to.
    pub base_url: String,
    /// The API key, needed for signed requests.
    pub api_key: Option<String>,
    /// The API secret, needed for signed requests.
    pub api_secret: Option<String>,
    /// Milliseconds for which the exchange accepts a signed request.
    pub recv_window: u32,
    /// Whether `client` is the shared session's.
    pub shared_session: bool,
}

impl BaseHttpClient {
    /// Whether `self` was made from these parts.
    pub open spec fn holds(
        &self,
        base_url: Seq<char>,
        api_key: Option<String>,
        api_secret: Option<String>,
        recv_window: u32,
    ) -> bool {
        &&& self.base_url@ == base_url
        &&& self.api_key == api_key
        &&& self.api_secret == api_secret
        &&& self.recv_window == recv_window
    }

    /// The base on a client of its own that was built for it, or the error of
    /// the build as it came.
    pub fn from_built(
        built: Result<Client, SdkError>,
        base_url: String,
        api_key: Option<String>,
        api_secret: Option<String>,
        recv_window: u32,
    ) -> (made: Result<Self, SdkError>)
        ensures
            match built {
                Ok(client) => made matches Ok(base) && base == (BaseHttpClient {
                    client: Arc::new(client),
                    base_url,
                    api_key,
                    api_secret,
                    recv_window,
                    shared_session: false,
                }),
                Err(e) => made matches Err(same) && same == e,
            },
    {
        match built {
            Ok(client) => Ok(
                BaseHttpClient {
                    client: Arc::new(client),
                    base_url,
                    api_key,
                    api_secret,
                    recv_window,
                    shared_session: false,
                },
            ),
            Err(e) => Err(e),
        }
    }

    /// A base on the shared session's client where `session` is open, and on
    /// a client of its own otherwise. With an open session this cannot fail;
    /// without one it fails where the private client cannot be built, with
    /// the error of the build.
    pub fn new(
        base_url: String,
        api_key: Option<String>,
        api_secret: Option<String>,
        recv_window: u32,
        session: &SharedSessionManager,
    ) -> (made: Result<Self, SdkError>)
        ensures
            match made {
                Ok(base) => {
                    &&& base.holds(base_url@, api_key, api_secret, recv_window)
                    &&& base.shared_session == (session@ is Some)
                    &&& session@ matches Some(open) ==> base.client == open.client
                },
                Err(e) => session@ is None && e is Http,
            },
    {
        if session.is_initialized() {
            Ok(
                BaseHttpClient {
                    client: session.get_client(),
                    base_url,
                    api_key,
                    api_secret,
                    recv_window,
                    shared_session: true,
                },
            )
        } else {
            Self::from_built(build_private(), base_url, api_key, api_secret, recv_window)
        }
    }

    /// Whether the transport is the shared session's client.
    pub fn is_shared_session_enabled(&self) -> (shared: bool)
        ensures
            shared == self.shared_session,
    {
        self.shared_session
    }

    /// Sets the receive window, in milliseconds, and nothing else.
    pub fn set_recv_window(&mut self, recv_window: u32)
        ensures
            *final(self) == (BaseHttpClient { recv_window, ..*old(self) }),
    {
        self.recv_window = recv_window;
    }
}

} // verus!
