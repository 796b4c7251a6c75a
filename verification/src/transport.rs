//! Construction of the HTTP clients that carry the requests.
//!
//! What a client is configured with is decided here in the open; the building
//! itself is the HTTP crate's and stands behind the functions of this file
//! whose contracts are assumed.

use crate::error::SdkError;
use reqwest::header::HeaderMap;
use reqwest::header::HeaderName;
use reqwest::header::HeaderValue;
use reqwest::Client;
use std::time::Duration;
use vstd::prelude::*;
use vstd::utf8::encode_utf8;

verus! {

/// The HTTP crate's client, opaque to the verifier.
#[verifier::external_type_specification]
#[verifier::external_body]
pub struct ExClient(reqwest::Client);

/// The value of a header, opaque to the verifier.
#[verifier::external_type_specification]
#[verifier::external_body]
pub struct ExHeaderValue(reqwest::header::HeaderValue);

/// A map of headers, opaque to the verifier.
#[verifier::external_type_specification]
#[verifier::external_body]
#[verifier::reject_recursive_types(T)]
pub struct ExHeaderMap<T>(reqwest::header::HeaderMap<T>);

/// Seconds an idle pooled connection is kept.
pub const POOL_IDLE_TIMEOUT_SECS: u64 = 60;

/// Seconds between TCP keep-alive probes.
pub const TCP_KEEPALIVE_SECS: u64 = 60;

/// Seconds a whole request may take.
pub const REQUEST_TIMEOUT_SECS: u64 = 30;

/// How the pooled client of a shared session is configured.
pub struct PoolSettings {
    /// Idle connections kept per host.
    pub max_idle_per_host: usize,
    /// Seconds an idle connection is kept.
    pub idle_timeout_secs: u64,
    /// Seconds between TCP keep-alive probes.
    pub keepalive_secs: u64,
    /// Whether `TCP_NODELAY` is set.
    pub nodelay: bool,
    /// Seconds a whole request may take.
    pub request_timeout_secs: u64,
    /// The `User-Agent` sent with every request.
    pub user_agent: String,
}

/// The settings of the shared pool for `max_connections` connections: half of
/// them may idle per host, and the timeouts are fixed.
pub open spec fn pool_settings_of(max_connections: usize, settings: PoolSettings) -> bool {
    &&& settings.max_idle_per_host == max_connections / 2
    &&& settings.idle_timeout_secs == POOL_IDLE_TIMEOUT_SECS
    &&& settings.keepalive_secs == TCP_KEEPALIVE_SECS
    &&& settings.nodelay
    &&& settings.request_timeout_secs == REQUEST_TIMEOUT_SECS
    &&& settings.user_agent@ == "trade-sdk/0.1.0"@
}

/// The settings of the shared pool for `max_connections` connections.
pub fn pool_settings(max_connections: usize) -> (settings: PoolSettings)
    ensures
        pool_settings_of(max_connections, settings),
{
    PoolSettings {
        max_idle_per_host: max_connections / 2,
        idle_timeout_secs: POOL_IDLE_TIMEOUT_SECS,
        keepalive_secs: TCP_KEEPALIVE_SECS,
        nodelay: true,
        request_timeout_secs: REQUEST_TIMEOUT_SECS,
        user_agent: "trade-sdk/0.1.0".to_owned(),
    }
}

/// One header: its name and its value.
#[derive(Debug)]
pub struct Header {
    pub name: String,
    pub value: String,
}

impl View for Header {
    type V = (Seq<char>, Seq<char>);

    open spec fn view(&self) -> (Seq<char>, Seq<char>) {
        (self.name@, self.value@)
    }
}

/// The headers that every client sends: JSON both ways and, on the shared
/// pool, a kept connection.
pub open spec fn default_headers_of(keep_alive: bool) -> Seq<(Seq<char>, Seq<char>)> {
    let json = seq![
        ("Content-Type"@, "application/json"@),
        ("Accept"@, "application/json"@),
    ];
    if keep_alive {
        json.push(("Connection"@, "keep-alive"@))
    } else {
        json
    }
}

/// The headers that every client sends.
pub fn default_headers(keep_alive: bool) -> (headers: Vec<Header>)
    ensures
        headers@.map_values(|h: Header| h@) == default_headers_of(keep_alive),
{
    let mut headers: Vec<Header> = Vec::new();
    headers.push(Header { name: "Content-Type".to_owned(), value: "application/json".to_owned() });
    headers.push(Header { name: "Accept".to_owned(), value: "application/json".to_owned() });
    if keep_alive {
        headers.push(Header { name: "Connection".to_owned(), value: "keep-alive".to_owned() });
    }
    headers
}

/// The headers that a map holds: for each name, as the map keeps it in lower
/// case, the bytes of its first value.
pub uninterp spec fn headers_in(map: HeaderMap) -> Map<Seq<char>, Seq<u8>>;

/// A character with the ASCII capital letters turned to small ones.
pub open spec fn ascii_lower_char(c: char) -> char {
    if 'A' <= c <= 'Z' {
        ((c as u32) + 32) as char
    } else {
        c
    }
}

/// A text with its ASCII capital letters turned to small ones.
pub open spec fn ascii_lower(text: Seq<char>) -> Seq<char> {
    text.map_values(|c: char| ascii_lower_char(c))
}

/// What a map holds once `headers` were put into it one after the other:
/// for each name in lower case the value that was put last.
pub open spec fn held_headers(headers: Seq<(Seq<char>, Seq<char>)>) -> Map<Seq<char>, Seq<u8>>
    decreases headers.len(),
{
    if headers.len() == 0 {
        Map::empty()
    } else {
        held_headers(headers.drop_last()).insert(
            ascii_lower(headers.last().0),
            encode_utf8(headers.last().1),
        )
    }
}

/// The number of names that a header map is sure to have room for. The map
/// of the HTTP crate takes many more.
pub const HEADER_ROOM: usize = 1024;

/// Whether a character may stand in the name of a header: an ASCII letter or
/// digit or one of a few signs.
pub open spec fn header_name_char_ok(c: char) -> bool {
    ||| 'a' <= c <= 'z'
    ||| 'A' <= c <= 'Z'
    ||| '0' <= c <= '9'
    ||| c == '!' || c == '#' || c == '$' || c == '%' || c == '&' || c == '\'' || c == '*'
    ||| c == '+' || c == '-' || c == '.' || c == '^' || c == '_' || c == '`' || c == '|'
    ||| c == '~'
}

/// Whether a text is well formed as the name of a header: not empty, not
/// longer than the HTTP crate takes, and made of the characters of a name.
pub open spec fn header_name_ok(name: Seq<char>) -> bool {
    &&& 0 < name.len() <= 65535
    &&& forall|i: int| 0 <= i < name.len() ==> header_name_char_ok(#[trigger] name[i])
}

/// Whether a character may stand in the value of a header: a tab, or any
/// character from the space on but the delete character. A character
/// beyond ASCII is written in bytes above 127, which a value may hold.
pub open spec fn header_value_char_ok(c: char) -> bool {
    c == '\t' || (' ' <= c && c as u32 != 127)
}

/// Whether a text is well formed as the value of a header.
pub open spec fn header_value_ok(value: Seq<char>) -> bool {
    forall|i: int| 0 <= i < value.len() ==> header_value_char_ok(#[trigger] value[i])
}

/// Whether every header is well formed.
pub open spec fn headers_ok(headers: Seq<(Seq<char>, Seq<char>)>) -> bool {
    forall|i: int|
        0 <= i < headers.len() ==> header_name_ok((#[trigger] headers[i]).0) && header_value_ok(
            headers[i].1,
        )
}

/// Whether a map holds at most `n` names.
pub open spec fn holds_at_most(held: Map<Seq<char>, Seq<u8>>, n: int) -> bool {
    held.dom().finite() && held.dom().len() <= n
}

/// What a map without headers holds.
pub open spec fn no_headers() -> Map<Seq<char>, Seq<u8>> {
    Map::empty()
}

/// `reqwest::header::HeaderMap::new` makes a map without headers.
#[verifier::external_body]
fn empty_header_map() -> (fresh: HeaderMap)
    ensures
        headers_in(fresh) == no_headers(),
{
    HeaderMap::new()
}

/// `HeaderName::from_bytes`, `HeaderValue::from_str` and
/// `HeaderMap::try_insert` of the HTTP crate: the header is put into the map
/// if the name and the value are well formed and the map has room, and the
/// result says whether it was. A name that is taken is kept in lower case,
/// and its value, the bytes of `value`, replaces what the name had. A name
/// is taken where it is a token of at most 65,535 characters, a value where
/// each of its bytes is a tab or at least 32 and not 127, and a map that
/// holds fewer than `HEADER_ROOM` names has room.
#[verifier::external_body]
fn insert_header(map: &mut HeaderMap, name: &str, value: &str) -> (accepted: bool)
    ensures
        accepted ==> headers_in(*final(map)) == headers_in(*old(map)).insert(
            ascii_lower(name@),
            encode_utf8(value@),
        ),
        header_name_ok(name@) && header_value_ok(value@) && holds_at_most(
            headers_in(*old(map)),
            HEADER_ROOM - 1,
        ) ==> accepted,
{
    match (HeaderName::from_bytes(name.as_bytes()), HeaderValue::from_str(value)) {
        (Ok(name), Ok(value)) => map.try_insert(name, value).is_ok(),
        _ => false,
    }
}

/// The header map that holds `headers`, unless the HTTP crate refuses one of
/// them. A map that comes back holds each name in lower case with the value
/// that `headers` gives it last. Without headers the empty map comes back.
pub fn header_map(headers: &Vec<Header>) -> (map: Option<HeaderMap>)
    ensures
        map matches Some(m) ==> headers_in(m) == held_headers(headers@.map_values(|h: Header| h@)),
        map matches Some(m) ==> holds_at_most(headers_in(m), headers@.len() as int),
        headers_ok(headers@.map_values(|h: Header| h@)) && headers@.len() <= HEADER_ROOM
            ==> map is Some,
{
    let ghost pairs = headers@.map_values(|h: Header| h@);
    let mut map = empty_header_map();
    let mut i: usize = 0;
    while i < headers.len()
        invariant
            i <= headers@.len(),
            pairs == headers@.map_values(|h: Header| h@),
            headers_in(map) == held_headers(pairs.take(i as int)),
            holds_at_most(headers_in(map), i as int),
        decreases headers@.len() - i,
    {
        assert(pairs[i as int] == headers@[i as int]@);
        if !insert_header(&mut map, headers[i].name.as_str(), headers[i].value.as_str()) {
            return None;
        }
        proof {
            assert(pairs.take(i + 1).drop_last() =~= pairs.take(i as int));
            assert(pairs.take(i + 1).last() == headers@[i as int]@);
        }
        i += 1;
    }
    proof {
        assert(pairs.take(i as int) =~= pairs);
    }
    Some(map)
}

/// The most names that the default headers of a client may have: the HTTP
/// crate copies them into a map of its own, which must not overflow.
pub const MAX_DEFAULT_HEADERS: usize = 16;

/// `reqwest::ClientBuilder`: a client that speaks HTTP/1 only, with the pool,
/// the timeouts and the user agent of `settings` and with `headers` on every
/// request. The crate fails where its TLS backend or resolver cannot start;
/// nothing is claimed of a client that was built.
#[verifier::external_body]
fn build_http1_client(settings: &PoolSettings, headers: HeaderMap) -> (built: Result<
    Client,
    reqwest::Error,
>)
    requires
        holds_at_most(headers_in(headers), MAX_DEFAULT_HEADERS as int),
{
    Client::builder()
        .pool_max_idle_per_host(settings.max_idle_per_host)
        .pool_idle_timeout(Duration::from_secs(settings.idle_timeout_secs))
        .tcp_keepalive(Duration::from_secs(settings.keepalive_secs))
        .tcp_nodelay(settings.nodelay)
        .timeout(Duration::from_secs(settings.request_timeout_secs))
        .http1_only()
        .user_agent(settings.user_agent.as_str())
        .default_headers(headers)
        .build()
}

/// `reqwest::ClientBuilder`: a client with the crate's own settings and with
/// `headers` on every request. Nothing is claimed of a client that was built.
#[verifier::external_body]
fn build_plain_client(headers: HeaderMap) -> (built: Result<Client, reqwest::Error>)
    requires
        holds_at_most(headers_in(headers), MAX_DEFAULT_HEADERS as int),
{
    Client::builder().default_headers(headers).build()
}

/// What building gives for the outcome of the HTTP crate: the client that
/// was built, or the crate's error as an `Http` error.
pub open spec fn built_of(outcome: Result<Client, reqwest::Error>) -> Result<Client, SdkError> {
    match outcome {
        Ok(client) => Ok(client),
        Err(e) => Err(SdkError::Http(e)),
    }
}

/// What building gives for the outcome of the HTTP crate.
pub fn client_or_error(outcome: Result<Client, reqwest::Error>) -> (built: Result<
    Client,
    SdkError,
>)
    ensures
        built == built_of(outcome),
{
    match outcome {
        Ok(client) => Ok(client),
        Err(e) => Err(SdkError::Http(e)),
    }
}

proof fn lemma_content_type_ok()
    ensures
        header_name_ok("Content-Type"@),
{
    reveal_strlit("Content-Type");
    let text = "Content-Type"@;
    assert(text.len() == 12);
    assert(text[0] == 'C');
    assert(text[1] == 'o');
    assert(text[2] == 'n');
    assert(text[3] == 't');
    assert(text[4] == 'e');
    assert(text[5] == 'n');
    assert(text[6] == 't');
    assert(text[7] == '-');
    assert(text[8] == 'T');
    assert(text[9] == 'y');
    assert(text[10] == 'p');
    assert(text[11] == 'e');
}

proof fn lemma_accept_ok()
    ensures
        header_name_ok("Accept"@),
{
    reveal_strlit("Accept");
    let text = "Accept"@;
    assert(text.len() == 6);
    assert(text[0] == 'A');
    assert(text[1] == 'c');
    assert(text[2] == 'c');
    assert(text[3] == 'e');
    assert(text[4] == 'p');
    assert(text[5] == 't');
}

proof fn lemma_connection_ok()
    ensures
        header_name_ok("Connection"@),
{
    reveal_strlit("Connection");
    let text = "Connection"@;
    assert(text.len() == 10);
    assert(text[0] == 'C');
    assert(text[1] == 'o');
    assert(text[2] == 'n');
    assert(text[3] == 'n');
    assert(text[4] == 'e');
    assert(text[5] == 'c');
    assert(text[6] == 't');
    assert(text[7] == 'i');
    assert(text[8] == 'o');
    assert(text[9] == 'n');
}

proof fn lemma_json_ok()
    ensures
        header_value_ok("application/json"@),
{
    reveal_strlit("application/json");
    let text = "application/json"@;
    assert(text.len() == 16);
    assert(text[0] == 'a');
    assert(text[1] == 'p');
    assert(text[2] == 'p');
    assert(text[3] == 'l');
    assert(text[4] == 'i');
    assert(text[5] == 'c');
    assert(text[6] == 'a');
    assert(text[7] == 't');
    assert(text[8] == 'i');
    assert(text[9] == 'o');
    assert(text[10] == 'n');
    assert(text[11] == '/');
    assert(text[12] == 'j');
    assert(text[13] == 's');
    assert(text[14] == 'o');
    assert(text[15] == 'n');
}

proof fn lemma_keep_alive_ok()
    ensures
        header_value_ok("keep-alive"@),
{
    reveal_strlit("keep-alive");
    let text = "keep-alive"@;
    assert(text.len() == 10);
    assert(text[0] == 'k');
    assert(text[1] == 'e');
    assert(text[2] == 'e');
    assert(text[3] == 'p');
    assert(text[4] == '-');
    assert(text[5] == 'a');
    assert(text[6] == 'l');
    assert(text[7] == 'i');
    assert(text[8] == 'v');
    assert(text[9] == 'e');
}

/// The default headers are well formed, with or without the kept connection.
pub proof fn lemma_default_headers_ok(keep_alive: bool)
    ensures
        headers_ok(default_headers_of(keep_alive)),
{
    lemma_content_type_ok();
    lemma_accept_ok();
    lemma_connection_ok();
    lemma_json_ok();
    lemma_keep_alive_ok();
}

/// Builds the pooled client of a shared session for `max_connections`
/// connections, with the pool settings of that size and the default headers.
/// Whether a client can be built is the HTTP crate's to say; the only
/// failure is the crate's own error.
pub fn build_pooled(max_connections: usize) -> (built: Result<Client, SdkError>)
    ensures
        built matches Err(e) ==> e is Http,
{
    let settings = pool_settings(max_connections);
    let headers = default_headers(true);
    proof {
        lemma_default_headers_ok(true);
    }
    let map = header_map(&headers).unwrap();
    client_or_error(build_http1_client(&settings, map))
}

/// Builds the client of an exchange client that shares no session, with the
/// default headers. The only failure is the HTTP crate's own error.
pub fn build_private() -> (built: Result<Client, SdkError>)
    ensures
        built matches Err(e) ==> e is Http,
{
    let headers = default_headers(false);
    proof {
        lemma_default_headers_ok(false);
    }
    let map = header_map(&headers).unwrap();
    client_or_error(build_plain_client(map))
}

} // verus!
