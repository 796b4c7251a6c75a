use trade_sdk::params::holds_opening;
use trade_sdk::params::ParamValue;
use trade_sdk::params::Params;

fn names(p: &Params) -> Vec<String> {
    (0..p.len()).map(|i| p.at(i).name.clone()).collect()
}

#[test]
fn insert_keeps_the_names_in_order() {
    let mut p = Params::new();
    assert!(p.is_empty());
    p.set_text("symbol", "BTCUSDT");
    p.set_int("limit", 5);
    p.set_bool("openOnly", true);
    p.set_text("category", "linear");
    p.set_text("Zed", "z");
    assert_eq!(names(&p), ["Zed", "category", "limit", "openOnly", "symbol"]);
    assert_eq!(p.len(), 5);
    assert!(!p.is_empty());
}

#[test]
fn insert_overwrites_the_value_of_its_name() {
    let mut p = Params::new();
    p.set_text("a", "1");
    p.set_text("b", "2");
    p.set_text("a", "3");
    assert_eq!(names(&p), ["a", "b"]);
    assert_eq!(p.to_query(true, false), "a=3&b=2");
    p.insert("b".to_string(), ParamValue::Null);
    assert_eq!(p.to_query(true, false), "a=3&b=");
}

#[test]
fn insertion_order_does_not_show() {
    let mut forward = Params::new();
    let mut backward = Params::new();
    for name in ["a", "b", "c", "d"] {
        forward.set_text(name, name);
    }
    for name in ["d", "c", "b", "a"] {
        backward.set_text(name, name);
    }
    assert_eq!(forward.to_query(true, false), backward.to_query(true, false));
    assert_eq!(forward.to_json(true), backward.to_json(true));
    assert_eq!(forward.to_query(true, false), "a=a&b=b&c=c&d=d");
}

#[test]
fn get_finds_the_value_of_a_name() {
    let mut p = Params::new();
    p.set_int("limit", 5);
    p.set_text("symbol", "X");
    assert!(matches!(p.get("limit"), Some(ParamValue::Int(5))));
    assert!(matches!(p.get("symbol"), Some(ParamValue::Text(s)) if s == "X"));
    assert!(p.get("Symbol").is_none());
    assert!(p.get("").is_none());
    assert!(Params::new().get("limit").is_none());
}

#[test]
fn values_as_plain_text_and_as_tokens() {
    let cases = [
        (ParamValue::Null, "", "null", true),
        (ParamValue::Bool(true), "true", "true", false),
        (ParamValue::Bool(false), "false", "false", false),
        (ParamValue::Int(-42), "-42", "-42", false),
        (ParamValue::Text("a\"b".to_string()), "a\"b", "\"a\\\"b\"", false),
        (ParamValue::Text(String::new()), "", "\"\"", true),
        (ParamValue::Raw("[1,2]".to_string()), "[1,2]", "[1,2]", false),
        (ParamValue::Raw(String::new()), "", "", true),
    ];
    for (value, flat, token, blank) in cases {
        assert_eq!(value.to_flat(), flat);
        assert_eq!(value.to_token(), token);
        assert_eq!(value.is_blank(), blank);
        assert_eq!(value.copy().to_token(), token);
    }
}

#[test]
fn query_joins_pairs_and_may_skip_blanks() {
    let mut p = Params::new();
    assert_eq!(p.to_query(true, false), "");
    p.set_text("symbol", "BTCUSDT");
    p.set_text("empty", "");
    p.insert("none".to_string(), ParamValue::Null);
    p.set_int("limit", 10);
    p.set_bool("flag", false);
    assert_eq!(p.to_query(true, false), "empty=&flag=false&limit=10&none=&symbol=BTCUSDT");
    assert_eq!(p.to_query(false, false), "flag=false&limit=10&symbol=BTCUSDT");
    let mut blanks = Params::new();
    blanks.set_text("a", "");
    blanks.insert("b".to_string(), ParamValue::Null);
    assert_eq!(blanks.to_query(false, false), "");
    assert_eq!(blanks.to_query(true, false), "a=&b=");
}

#[test]
fn query_escapes_every_byte_but_letters_and_digits() {
    let mut p = Params::new();
    p.set_text("q", "a b&c=d/é");
    p.set_raw("ids", "[1,2]".to_string());
    p.set_text("plain", "Az09");
    assert_eq!(p.to_query(true, true), "ids=%5B1%2C2%5D&plain=Az09&q=a%20b%26c%3Dd%2F%C3%A9");
    assert_eq!(p.to_query(true, false), "ids=[1,2]&plain=Az09&q=a b&c=d/é");
}

#[test]
fn json_object_in_name_order_without_spaces() {
    let mut p = Params::new();
    assert_eq!(p.to_json(true), "{}");
    assert_eq!(p.to_json(false), "{}");
    p.set_text("symbol", "BTCUSDT");
    p.set_text("qty", "0.5");
    p.set_int("limit", 10);
    p.set_bool("reduceOnly", true);
    p.insert("none".to_string(), ParamValue::Null);
    p.set_text("empty", "");
    p.set_raw("list", "[1,\"a\"]".to_string());
    assert_eq!(
        p.to_json(true),
        "{\"empty\":\"\",\"limit\":10,\"list\":[1,\"a\"],\"none\":null,\"qty\":\"0.5\",\"reduceOnly\":true,\"symbol\":\"BTCUSDT\"}"
    );
    assert_eq!(
        p.to_json(false),
        "{\"limit\":10,\"list\":[1,\"a\"],\"qty\":\"0.5\",\"reduceOnly\":true,\"symbol\":\"BTCUSDT\"}"
    );
    let same: serde_json::Value = serde_json::from_str(&p.to_json(true)).unwrap();
    assert_eq!(serde_json::to_string(&same).unwrap(), p.to_json(true));
}

#[test]
fn json_quotes_names_and_strings_as_the_json_crate_does() {
    let mut p = Params::new();
    p.set_text("a\"b", "line\nbreak \\ é");
    assert_eq!(p.to_json(true), "{\"a\\\"b\":\"line\\nbreak \\\\ é\"}");
}

#[test]
fn merge_puts_in_what_has_a_value() {
    let mut base = Params::new();
    base.set_text("category", "linear");
    base.set_text("symbol", "OLD");
    let mut extra = Params::new();
    extra.set_text("symbol", "NEW");
    extra.insert("price".to_string(), ParamValue::Null);
    extra.set_text("qty", "1");
    extra.set_text("empty", "");
    base.merge(&extra);
    assert_eq!(base.to_json(true), "{\"category\":\"linear\",\"empty\":\"\",\"qty\":\"1\",\"symbol\":\"NEW\"}");
    assert_eq!(extra.len(), 4);
}

#[test]
fn structure_is_an_opening_brace_or_bracket() {
    assert!(holds_opening("{"));
    assert!(holds_opening("a[1]"));
    assert!(!holds_opening("}]"));
    assert!(!holds_opening(""));
    let mut p = Params::new();
    p.set_text("a", "plain");
    p.set_int("n", 1);
    assert!(!p.has_structure());
    p.set_raw("list", "[1]".to_string());
    assert!(p.has_structure());
    let mut q = Params::new();
    q.set_text("name{", "x");
    assert!(!q.has_structure());
}

#[test]
fn copy_is_equal_and_apart() {
    let mut p = Params::new();
    p.set_text("a", "1");
    let mut c = p.copy();
    c.set_text("b", "2");
    assert_eq!(p.to_query(true, false), "a=1");
    assert_eq!(c.to_query(true, false), "a=1&b=2");
}
