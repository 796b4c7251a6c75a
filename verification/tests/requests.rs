use trade_sdk::bingx::http::mask_signature;
use trade_sdk::bingx::http::BingxHttpClient;
use trade_sdk::bybit::http::BybitHttpClient;
use trade_sdk::error::SdkError;
use trade_sdk::http::Method;
use trade_sdk::http::RequestArgs;
use trade_sdk::params::Params;
use trade_sdk::session::SharedSessionManager;
use trade_sdk::transport::Header;

const TS: i64 = 1_700_000_000_000;

fn bybit(key: Option<&str>, secret: Option<&str>, referral: Option<&str>) -> BybitHttpClient {
    BybitHttpClient::new(
        key.map(str::to_string),
        secret.map(str::to_string),
        false,
        false,
        5000,
        referral.map(str::to_string),
        &SharedSessionManager::new(),
    )
    .unwrap()
}

fn bingx(key: Option<&str>, secret: Option<&str>) -> BingxHttpClient {
    BingxHttpClient::new(
        key.map(str::to_string),
        secret.map(str::to_string),
        false,
        5000,
        &SharedSessionManager::new(),
    )
    .unwrap()
}

fn headers(args: &RequestArgs) -> Vec<(String, String)> {
    args.headers.iter().map(|h| (h.name.clone(), h.value.clone())).collect()
}

fn pair(name: &str, value: &str) -> (String, String) {
    (name.to_string(), value.to_string())
}

fn auth_message(e: SdkError) -> String {
    match e {
        SdkError::Auth(m) => m,
        other => panic!("not an Auth error: {:?}", other),
    }
}

#[test]
fn bybit_base_url_follows_the_flags() {
    let session = SharedSessionManager::new();
    for (testnet, demo, url) in [
        (false, false, "https://api.bybit.com"),
        (true, false, "https://api-testnet.bybit.com"),
        (false, true, "https://api-demo.bybit.com"),
        (true, true, "https://api-demo-testnet.bybit.com"),
    ] {
        let client = BybitHttpClient::new(None, None, testnet, demo, 5000, None, &session).unwrap();
        assert_eq!(client.base_client().base_url, url);
        assert!(!client.is_shared_session_enabled());
        assert!(!client.uses_shared_session());
    }
}

#[test]
fn bingx_base_url_follows_the_demo_flag() {
    let session = SharedSessionManager::new();
    let live = BingxHttpClient::new(None, None, false, 5000, &session).unwrap();
    let demo = BingxHttpClient::new(None, None, true, 7000, &session).unwrap();
    assert_eq!(live.base_client().base_url, "https://open-api.bingx.com");
    assert_eq!(demo.base_client().base_url, "https://open-api-vst.bingx.com");
    assert_eq!(demo.base_client().recv_window, 7000);
    assert!(!live.is_shared_session_enabled());
}

#[test]
fn set_recv_window_changes_only_the_window() {
    let mut client = bybit(Some("k"), Some("s"), Some("ref"));
    client.set_recv_window(9000);
    assert_eq!(client.base_client().recv_window, 9000);
    assert_eq!(client.base_client().api_key.as_deref(), Some("k"));
    assert_eq!(client.base_client().base_url, "https://api.bybit.com");
    let mut other = bingx(Some("k"), None);
    other.set_recv_window(1);
    assert_eq!(other.base_client().recv_window, 1);
    assert_eq!(other.base_client().api_key.as_deref(), Some("k"));
}

#[test]
fn bybit_payload_is_a_query_for_get_and_json_otherwise() {
    let mut p = Params::new();
    p.set_text("symbol", "BTCUSDT");
    p.set_text("category", "linear");
    p.set_text("cursor", "");
    p.set_int("limit", 20);
    assert_eq!(
        trade_sdk::bybit::http::prepare_payload(Method::Get, &p),
        "category=linear&limit=20&symbol=BTCUSDT"
    );
    for method in [Method::Post, Method::Put, Method::Delete] {
        assert_eq!(
            trade_sdk::bybit::http::prepare_payload(method, &p),
            "{\"category\":\"linear\",\"limit\":20,\"symbol\":\"BTCUSDT\"}"
        );
    }
    assert_eq!(trade_sdk::bybit::http::prepare_payload(Method::Get, &Params::new()), "");
    assert_eq!(trade_sdk::bybit::http::prepare_payload(Method::Post, &Params::new()), "{}");
}

#[test]
fn bybit_signature_covers_timestamp_key_window_and_payload() {
    let client = bybit(None, None, None);
    assert_eq!(
        client
            .generate_signature("my-key", "my-secret", "category=linear&symbol=BTCUSDT", TS)
            .unwrap(),
        "421dbb25ac80a61010cca3ebcd9c7115f795155c1d3deb08ae6dd6b25f7c85ed"
    );
}

#[test]
fn bybit_signed_get_request() {
    let client = bybit(Some("my-key"), Some("my-secret"), None);
    let mut p = Params::new();
    p.set_text("symbol", "BTCUSDT");
    p.set_text("category", "linear");
    p.set_text("blank", "");
    let args = client
        .build_request_args_at(Method::Get, "/v5/position/list", Some(&p), true, TS)
        .unwrap();
    assert_eq!(
        args.url,
        "https://api.bybit.com/v5/position/list?category=linear&symbol=BTCUSDT"
    );
    assert!(args.json.is_none());
    assert_eq!(
        headers(&args),
        [
            pair("X-BAPI-API-KEY", "my-key"),
            pair("X-BAPI-SIGN", "421dbb25ac80a61010cca3ebcd9c7115f795155c1d3deb08ae6dd6b25f7c85ed"),
            pair("X-BAPI-SIGN-TYPE", "2"),
            pair("X-BAPI-TIMESTAMP", "1700000000000"),
            pair("X-BAPI-RECV-WINDOW", "5000"),
        ]
    );
}

#[test]
fn bybit_signed_post_request_sends_every_parameter() {
    let client = bybit(Some("my-key"), Some("my-secret"), Some("partner"));
    let mut p = Params::new();
    p.set_text("symbol", "BTCUSDT");
    p.set_text("category", "linear");
    p.set_text("qty", "0.5");
    p.set_text("orderLinkId", "");
    let args = client
        .build_request_args_at(Method::Post, "/v5/order/create", Some(&p), true, TS)
        .unwrap();
    assert_eq!(args.url, "https://api.bybit.com/v5/order/create");
    assert_eq!(
        args.json.unwrap().to_json(true),
        "{\"category\":\"linear\",\"orderLinkId\":\"\",\"qty\":\"0.5\",\"symbol\":\"BTCUSDT\"}"
    );
    let sent = headers(&RequestArgs { url: String::new(), headers: args.headers, json: None });
    assert_eq!(sent.len(), 6);
    assert_eq!(
        sent[1],
        pair("X-BAPI-SIGN", "c000b4c177b47ec6ab35b701e0e52bce78dd26edb732f3724dd09d7e00467b47")
    );
    assert_eq!(sent[5], pair("Referer", "partner"));
}

#[test]
fn bybit_unsigned_request_has_only_the_referral() {
    let client = bybit(None, None, Some("partner"));
    let args = client
        .build_request_args_at(Method::Get, "/v5/market/time", None, false, TS)
        .unwrap();
    assert_eq!(args.url, "https://api.bybit.com/v5/market/time");
    assert_eq!(headers(&args), [pair("Referer", "partner")]);
    assert!(args.json.is_none());
    let plain = bybit(None, None, None)
        .build_request_args_at(Method::Put, "/x", None, false, TS)
        .unwrap();
    assert!(plain.headers.is_empty());
    assert_eq!(plain.json.unwrap().to_json(true), "{}");
    let delete = bybit(None, None, None)
        .build_request_args_at(Method::Delete, "/x", None, false, TS)
        .unwrap();
    assert!(delete.json.is_none());
    assert_eq!(delete.url, "https://api.bybit.com/x");
}

#[test]
fn bybit_signed_request_needs_key_and_secret() {
    let no_key = bybit(None, Some("s"), None)
        .build_request_args_at(Method::Get, "/x", None, true, TS)
        .unwrap_err();
    assert_eq!(auth_message(no_key), "API key required for authenticated requests");
    let no_secret = bybit(Some("k"), None, None)
        .build_request_args_at(Method::Get, "/x", None, true, TS)
        .unwrap_err();
    assert_eq!(auth_message(no_secret), "API secret required for authenticated requests");
    let neither = bybit(None, None, None)
        .build_request_args_at(Method::Get, "/x", None, true, TS)
        .unwrap_err();
    assert_eq!(auth_message(neither), "API key required for authenticated requests");
}

#[test]
fn bybit_request_on_the_system_clock() {
    let client = bybit(Some("k"), Some("s"), None);
    let args = client.build_request_args(Method::Get, "/x", None, true).unwrap();
    let sent = headers(&args);
    let stamp: i64 = sent[3].1.parse().unwrap();
    assert!(stamp > 1_600_000_000_000);
    assert_eq!(sent[1].1, client.generate_signature("k", "s", "", stamp).unwrap());
}

#[test]
fn bybit_masks_key_and_signature() {
    let shown = trade_sdk::bybit::http::mask_headers(&vec![
        Header { name: "X-BAPI-API-KEY".to_string(), value: "abcdefghij".to_string() },
        Header { name: "X-BAPI-SIGN".to_string(), value: "1234".to_string() },
        Header { name: "X-BAPI-TIMESTAMP".to_string(), value: "1700000000000".to_string() },
        Header { name: "x-bapi-sign".to_string(), value: "éèêëàâä".to_string() },
    ]);
    let shown: Vec<(String, String)> = shown.into_iter().map(|h| (h.name, h.value)).collect();
    assert_eq!(
        shown,
        [
            pair("x-bapi-api-key", "abcdef..."),
            pair("x-bapi-sign", "1234..."),
            pair("x-bapi-timestamp", "1700000000000"),
            pair("x-bapi-sign", "éèêëàâ..."),
        ]
    );
}

#[test]
fn bingx_masks_the_key() {
    let shown = trade_sdk::bingx::http::mask_headers(&vec![
        Header { name: "X-BX-APIKEY".to_string(), value: "abcdefghij".to_string() },
        Header { name: "X-BAPI-SIGN".to_string(), value: "abcdefghij".to_string() },
    ]);
    let shown: Vec<(String, String)> = shown.into_iter().map(|h| (h.name, h.value)).collect();
    assert_eq!(shown, [pair("x-bx-apikey", "abcdef..."), pair("x-bapi-sign", "abcdefghij")]);
    assert!(trade_sdk::bingx::http::mask_headers(&vec![]).is_empty());
}

#[test]
fn bingx_masks_the_signature_of_a_url() {
    assert_eq!(mask_signature("https://x/y?a=1&signature=abc"), "https://x/y?a=1&signature=***");
    assert_eq!(
        mask_signature("https://x/y?signature=abc&b=2&c=3"),
        "https://x/y?signature=***&b=2&c=3"
    );
    assert_eq!(mask_signature("https://x/y?a=1"), "https://x/y?a=1");
    assert_eq!(mask_signature(""), "");
    assert_eq!(mask_signature("signature="), "signature=***");
    assert_eq!(mask_signature("é?signature=é&é=1"), "é?signature=***&é=1");
    assert_eq!(
        mask_signature("?signature=1&signature=2"),
        "?signature=***&signature=2"
    );
}

#[test]
fn bingx_payload_for_get_keeps_the_parameters() {
    let client = bingx(None, None);
    let mut p = Params::new();
    p.set_text("symbol", "BTC-USDT");
    p.set_int("recvWindow", 5000);
    let (signed, query) = client.prepare_payload(Method::Get, &mut p, TS);
    assert_eq!(signed, "recvWindow=5000&symbol=BTC-USDT&timestamp=1700000000000");
    assert_eq!(query.as_deref(), Some("recvWindow=5000&symbol=BTC-USDT&timestamp=1700000000000"));
    assert_eq!(p.len(), 2);
    let (signed, query) = client.prepare_payload(Method::Get, &mut Params::new(), -5);
    assert_eq!(signed, "timestamp=-5");
    assert_eq!(query.as_deref(), Some("timestamp=-5"));
}

#[test]
fn bingx_payload_escapes_every_value_once_one_holds_structure() {
    let client = bingx(None, None);
    let mut p = Params::new();
    p.set_raw("ids", "[1,2]".to_string());
    p.set_text("symbol", "BTC-USDT");
    let (signed, query) = client.prepare_payload(Method::Get, &mut p, TS);
    assert_eq!(signed, "ids=[1,2]&symbol=BTC-USDT&timestamp=1700000000000");
    assert_eq!(query.as_deref(), Some("ids=%5B1%2C2%5D&symbol=BTC%2DUSDT&timestamp=1700000000000"));
}

#[test]
fn bingx_payload_for_other_methods_adds_the_timestamp_once() {
    let client = bingx(None, None);
    let mut p = Params::new();
    p.set_text("positionId", "abc");
    let (signed, query) = client.prepare_payload(Method::Post, &mut p, TS);
    assert_eq!(signed, "positionId=abc&timestamp=1700000000000");
    assert!(query.is_none());
    assert!(matches!(p.get("timestamp"), Some(trade_sdk::params::ParamValue::Text(t)) if t == "1700000000000"));
    let mut own = Params::new();
    own.set_int("timestamp", 7);
    let (signed, _) = client.prepare_payload(Method::Delete, &mut own, TS);
    assert_eq!(signed, "timestamp=7");
    assert_eq!(own.len(), 1);
}

#[test]
fn bingx_signed_get_request() {
    let client = bingx(Some("my-key"), Some("my-secret"));
    let mut p = Params::new();
    p.set_text("symbol", "BTC-USDT");
    let args = client
        .build_request_args_at(Method::Get, "/openApi/swap/v2/trade/leverage", Some(&p), true, TS)
        .unwrap();
    assert_eq!(
        args.url,
        "https://open-api.bingx.com/openApi/swap/v2/trade/leverage?recvWindow=5000&symbol=BTC-USDT&timestamp=1700000000000&signature=daac8eb4fcee4993f3cbf6c047e4c762f253e3b23477fedb98d6201e3d58f531"
    );
    assert_eq!(headers(&args), [pair("X-BX-APIKEY", "my-key")]);
    assert!(args.json.is_none());
    assert_eq!(p.len(), 1);
}

#[test]
fn bingx_signed_get_request_with_structure() {
    let client = bingx(Some("my-key"), Some("my-secret"));
    let mut p = Params::new();
    p.set_raw("ids", "[1,2]".to_string());
    let args = client.build_request_args_at(Method::Get, "/p", Some(&p), true, TS).unwrap();
    assert_eq!(
        args.url,
        "https://open-api.bingx.com/p?ids=%5B1%2C2%5D&recvWindow=5000&timestamp=1700000000000&signature=58ad2b74a37c53800196d10e096cb76b2de1c94bb75fe6884a6f1301c21adafc"
    );
}

#[test]
fn bingx_signed_post_request() {
    let client = bingx(Some("my-key"), Some("my-secret"));
    let mut p = Params::new();
    p.set_text("positionId", "abc");
    let args = client
        .build_request_args_at(Method::Post, "/openApi/swap/v1/trade/closePosition", Some(&p), true, TS)
        .unwrap();
    assert_eq!(args.url, "https://open-api.bingx.com/openApi/swap/v1/trade/closePosition");
    assert_eq!(
        args.json.unwrap().to_json(true),
        "{\"positionId\":\"abc\",\"recvWindow\":5000,\"signature\":\"6beb44a4ccf596b4c8f61ddf4c6ea1adcda8d9cafaf294c4c4f5c1dc5ca35b88\",\"timestamp\":1700000000000}"
    );
    assert_eq!(headers(&RequestArgs { url: String::new(), headers: args.headers, json: None }), [pair("X-BX-APIKEY", "my-key")]);
}

#[test]
fn bingx_unsigned_requests() {
    let client = bingx(None, None);
    let get = client.build_request_args_at(Method::Get, "/t", None, false, TS).unwrap();
    assert_eq!(get.url, "https://open-api.bingx.com/t?recvWindow=5000&timestamp=1700000000000");
    assert!(get.headers.is_empty());
    assert!(get.json.is_none());
    let post = client.build_request_args_at(Method::Post, "/t", None, false, TS).unwrap();
    assert_eq!(post.url, "https://open-api.bingx.com/t");
    assert_eq!(post.json.unwrap().to_json(true), "{\"recvWindow\":5000,\"timestamp\":1700000000000}");
}

#[test]
fn bingx_signed_request_needs_key_and_secret() {
    let no_key = bingx(None, Some("s")).build_request_args_at(Method::Get, "/x", None, true, TS);
    assert_eq!(auth_message(no_key.unwrap_err()), "API key must be set for authenticated requests.");
    let no_secret = bingx(Some("k"), None).build_request_args_at(Method::Post, "/x", None, true, TS);
    assert_eq!(
        auth_message(no_secret.unwrap_err()),
        "API secret must be set for authenticated requests."
    );
}

#[test]
fn bingx_request_on_the_system_clock() {
    let client = bingx(Some("k"), Some("s"));
    let args = client.build_request_args(Method::Get, "/x", None, true).unwrap();
    assert!(args.url.starts_with("https://open-api.bingx.com/x?recvWindow=5000&timestamp=1"));
    assert!(args.url.contains("&signature="));
}

#[test]
fn method_names() {
    for method in [Method::Get, Method::Post, Method::Put, Method::Delete] {
        assert_eq!(Method::from_name(method.as_str()).unwrap(), method);
    }
    assert_eq!(Method::Get.as_str(), "GET");
    assert_eq!(Method::Post.as_str(), "POST");
    assert_eq!(Method::Put.as_str(), "PUT");
    assert_eq!(Method::Delete.as_str(), "DELETE");
    match Method::from_name("PATCH") {
        Err(SdkError::Config(m)) => assert_eq!(m, "Unsupported HTTP method: PATCH"),
        other => panic!("not refused: {:?}", other),
    }
    assert!(Method::from_name("get").is_err());
    assert!(Method::from_name("").is_err());
}
