use std::sync::Arc;

use serde_json::Value;

use tds::abi::CapError;
use tds::json::{empty_object, string_member};
use tds::policy::{HttpToolConfig, KvToolConfig, Policy, ToolsConfig};
use tds::tools::{
    authorize_fetch, is_known_tool, spec_for, stamp_or_unavailable, FetchStep, HttpFetch, ParsedUrl, ToolBox,
    ToolReply, KNOWN_TOOLS,
};

fn json(text: &str) -> Value {
    serde_json::from_str(text).unwrap()
}

fn entry(key: &str, value: &str) -> Value {
    let mut members = serde_json::Map::new();
    members.insert("key".to_string(), Value::String(key.to_string()));
    members.insert("value".to_string(), Value::String(value.to_string()));
    Value::Object(members)
}

fn toolbox(enabled: &[&str], allowed_hosts: &[&str]) -> ToolBox {
    let policy = Policy {
        tools: ToolsConfig {
            enabled: enabled.iter().map(|s| s.to_string()).collect(),
            http: HttpToolConfig {
                allowed_hosts: allowed_hosts.iter().map(|s| s.to_string()).collect(),
                ..Default::default()
            },
            ..Default::default()
        },
        ..Default::default()
    };
    ToolBox::new(Arc::new(policy))
}

fn text(reply: Result<ToolReply, CapError>) -> String {
    match reply {
        Ok(ToolReply::Text(text)) => text,
        other => panic!("{other:?}"),
    }
}

fn fetch(reply: Result<ToolReply, CapError>) -> HttpFetch {
    match reply {
        Ok(ToolReply::Fetch(fetch)) => fetch,
        other => panic!("{other:?}"),
    }
}

#[test]
fn a_disabled_tool_is_denied_even_though_the_host_implements_it() {
    let mut tools = toolbox(&["now"], &[]);
    let err = tools.invoke("http_get", &json(r#"{ "url": "https://example.com" }"#));
    assert_eq!(err.unwrap_err().kind, "denied");
}

#[test]
fn a_disabled_tool_is_not_described_to_the_model() {
    let tools = toolbox(&["now", "kv_get"], &[]);
    let names: Vec<String> = tools.specs().into_iter().map(|s| s.name).collect();
    assert_eq!(names, vec!["now", "kv_get"]);
}

#[test]
fn non_https_and_off_allowlist_urls_are_refused_before_any_request() {
    let mut tools = toolbox(&["http_get"], &["example.com"]);

    let plaintext =
        tools.invoke("http_get", &json(r#"{ "url": "http://example.com" }"#)).unwrap_err();
    assert_eq!(plaintext.kind, "denied");

    let elsewhere =
        tools.invoke("http_get", &json(r#"{ "url": "https://evil.test/x" }"#)).unwrap_err();
    assert_eq!(elsewhere.kind, "denied");

    // Loopback is not special-cased; it simply is not on the allowlist.
    let loopback =
        tools.invoke("http_get", &json(r#"{ "url": "https://127.0.0.1/" }"#)).unwrap_err();
    assert_eq!(loopback.kind, "denied");
}

#[test]
fn the_scratchpad_round_trips_and_enforces_its_caps() {
    let mut tools = toolbox(&["kv_get", "kv_put"], &[]);
    tools.invoke("kv_put", &json(r#"{ "key": "a", "value": "hello" }"#)).unwrap();
    assert_eq!(text(tools.invoke("kv_get", &json(r#"{ "key": "a" }"#))), "hello");

    let oversized = "x".repeat(32 * 1024);
    let err = tools.invoke("kv_put", &entry("b", &oversized)).unwrap_err();
    assert_eq!(err.kind, "denied");
}

#[test]
fn missing_arguments_are_reported_as_invalid_not_as_a_panic() {
    let mut tools = toolbox(&["kv_get"], &[]);
    let err = tools.invoke("kv_get", &json("{}")).unwrap_err();
    assert_eq!(err.kind, "invalid");
}

#[test]
fn the_refusals_say_what_was_refused() {
    let mut tools = toolbox(&["http_get", "kv_put", "nope"], &[]);
    let line = |reply: Result<ToolReply, CapError>| reply.unwrap_err().to_string();
    assert_eq!(
        line(tools.invoke("k\"v\u{1}", &json("{}"))),
        format!("denied: tool {:?} is not enabled by this host's policy", "k\"v\u{1}")
    );
    assert_eq!(line(tools.invoke("nope", &json("{}"))), "not_found: no tool named \"nope\"");
    assert_eq!(
        line(tools.invoke("http_get", &json(r#"{"url":7}"#))),
        "invalid: missing required string argument \"url\""
    );
    assert_eq!(
        line(tools.invoke("http_get", &json(r#"["url"]"#))),
        "invalid: missing required string argument \"url\""
    );
    assert_eq!(
        line(tools.invoke("http_get", &json(r#"{"url":"nowhere"}"#))),
        "invalid: url is not valid: relative URL without a base"
    );
    assert_eq!(
        line(tools.invoke("http_get", &json(r#"{"url":"https://"}"#))),
        "invalid: url is not valid: empty host"
    );
    assert_eq!(
        line(tools.invoke("http_get", &json(r#"{"url":"ftp://example.com"}"#))),
        "denied: only https URLs may be fetched"
    );
    assert_eq!(
        line(tools.invoke("http_get", &json(r#"{"url":"https://Example.com/x"}"#))),
        "denied: host \"example.com\" is not in this host's allowlist"
    );
    assert_eq!(
        line(tools.invoke("kv_put", &json(r#"{"value":"v"}"#))),
        "invalid: missing required string argument \"key\""
    );
    assert_eq!(
        line(tools.invoke("kv_put", &json(r#"{"key":"k"}"#))),
        "invalid: missing required string argument \"value\""
    );
}

#[test]
fn an_allowed_url_is_handed_out_for_fetching() {
    let mut tools = toolbox(&["http_get"], &["*.example.com"]);
    let url = r#"{"url":"HTTPS://Docs.EXAMPLE.com:443/a b?q=1#f"}"#;
    let fetch = fetch(tools.invoke("http_get", &json(url)));
    assert_eq!(fetch.url, "https://docs.example.com/a%20b?q=1#f");
    assert_eq!(fetch.host, "docs.example.com");
    assert_eq!(fetch.limit, 64 * 1024);
}

#[test]
fn a_url_without_a_host_is_refused() {
    let parsed = ParsedUrl { url: "https:".into(), scheme: "https".into(), host: None };
    let error = authorize_fetch(&HttpToolConfig::default(), Ok(parsed)).unwrap_err();
    assert_eq!(error.to_string(), "invalid: url has no host");
}

#[test]
fn redirects_are_reported_and_not_followed() {
    let fetch = HttpFetch { url: "https://a.test/".into(), host: "a.test".into(), limit: 8 };
    match fetch.on_response(301, Some("https://b.test/".into())) {
        FetchStep::Reply(text) => assert_eq!(
            text,
            "HTTP 301 redirect to https://b.test/. Redirects are not followed automatically; fetch that URL explicitly if you still want it."
        ),
        other => panic!("{other:?}"),
    }
    match fetch.on_response(399, None) {
        FetchStep::Reply(text) => assert!(text.starts_with("HTTP 399 redirect to (none).")),
        other => panic!("{other:?}"),
    }
    assert!(matches!(fetch.on_response(299, None), FetchStep::ReadBody(9)));
    assert!(matches!(fetch.on_response(400, None), FetchStep::ReadBody(9)));
    let all = HttpFetch { url: String::new(), host: String::new(), limit: usize::MAX };
    assert!(matches!(all.on_response(200, None), FetchStep::ReadBody(usize::MAX)));
}

#[test]
fn bodies_are_cut_at_the_limit_and_read_leniently() {
    let fetch = HttpFetch { url: "https://a.test/".into(), host: "a.test".into(), limit: 8 };
    assert_eq!(fetch.on_body(200, b"hello"), "HTTP 200\n\nhello");
    // A body that just fits is not past the limit.
    assert_eq!(fetch.on_body(404, b"12345678"), "HTTP 404\n\n12345678");
    assert_eq!(fetch.on_body(404, b"123456789"), "HTTP 404 (truncated to 8 bytes)\n\n12345678");
    let small = HttpFetch { url: "https://a.test/".into(), host: "a.test".into(), limit: 4 };
    assert_eq!(small.on_body(200, b"abcd"), "HTTP 200\n\nabcd");
    let none = HttpFetch { url: "https://a.test/".into(), host: "a.test".into(), limit: 0 };
    assert_eq!(none.on_body(200, b""), "HTTP 200\n\n");
    assert_eq!(none.on_body(200, b"x"), "HTTP 200 (truncated to 0 bytes)\n\n");
    assert_eq!(fetch.on_body(200, b"a\xffb"), "HTTP 200\n\na\u{fffd}b");
    assert_eq!(fetch.on_send_error("refused").to_string(), "upstream: GET a.test failed: refused");
    assert_eq!(
        fetch.on_body_error("reset").to_string(),
        "upstream: reading response body: reset"
    );
}

#[test]
fn the_clock_tells_the_time() {
    let mut tools = toolbox(&["now"], &[]);
    let stamp = text(tools.invoke("now", &json("{}")));
    assert!(stamp.starts_with("20") && stamp.contains('T') && stamp.ends_with('Z'), "{stamp}");
    let chars: Vec<char> = stamp.chars().collect();
    for (at, c) in [(4, '-'), (7, '-'), (10, 'T'), (13, ':'), (16, ':')] {
        assert_eq!(chars[at], c, "{stamp}");
    }
    let number = |from: usize, to: usize| stamp[from..to].parse::<u32>().unwrap();
    assert!(number(0, 4) >= 2020, "{stamp}");
    assert!((1..=12).contains(&number(5, 7)), "{stamp}");
    assert!((1..=31).contains(&number(8, 10)), "{stamp}");
    assert!(number(11, 13) < 24 && number(14, 16) < 60 && number(17, 19) < 60, "{stamp}");
    let fraction = &stamp[19..stamp.len() - 1];
    assert!(
        fraction.is_empty()
            || (fraction.starts_with('.')
                && (2..=10).contains(&fraction.len())
                && fraction[1..].chars().all(|c| c.is_ascii_digit())),
        "{stamp}"
    );
    assert_eq!(stamp_or_unavailable(None), "unavailable");
    assert_eq!(stamp_or_unavailable(Some("x".into())), "x");
}

#[test]
fn the_scratchpad_keeps_what_it_is_given() {
    let mut tools = toolbox(&["kv_get", "kv_put"], &[]);
    assert_eq!(
        text(tools.invoke("kv_get", &json(r#"{"key":"a\nb"}"#))),
        "(no value stored for \"a\\nb\")"
    );
    assert_eq!(text(tools.invoke("kv_put", &entry("a", "1"))), "stored \"a\"");
    assert_eq!(text(tools.invoke("kv_put", &entry("b", "2"))), "stored \"b\"");
    assert_eq!(text(tools.invoke("kv_put", &entry("a", "3"))), "stored \"a\"");
    assert_eq!(text(tools.invoke("kv_get", &json(r#"{"key":"a"}"#))), "3");
    assert_eq!(text(tools.invoke("kv_get", &json(r#"{"key":"b"}"#))), "2");
}

#[test]
fn the_caps_of_the_scratchpad_are_exact() {
    let policy = Policy {
        tools: ToolsConfig {
            kv: KvToolConfig { max_keys: 2, max_value_bytes: 3 },
            ..Default::default()
        },
        ..Default::default()
    };
    let mut tools = ToolBox::new(Arc::new(policy));
    assert_eq!(tools.store("a".into(), "123".into()).unwrap(), "stored \"a\"");
    assert_eq!(
        tools.store("a".into(), "éé".into()).unwrap_err().to_string(),
        "denied: value is 4 bytes, over the 3 byte limit"
    );
    assert_eq!(tools.recall("a"), "123");
    tools.store("b".into(), String::new()).unwrap();
    assert_eq!(
        tools.store("c".into(), "1".into()).unwrap_err().to_string(),
        "denied: the scratchpad already holds its maximum of 2 keys"
    );
    assert_eq!(tools.store("b".into(), "2".into()).unwrap(), "stored \"b\"");
    assert_eq!(tools.recall("b"), "2");
    assert_eq!(tools.recall("c"), "(no value stored for \"c\")");
}

#[test]
fn every_known_tool_is_described() {
    for name in KNOWN_TOOLS {
        assert!(is_known_tool(name));
        let tool = spec_for(name).unwrap();
        assert_eq!(tool.name, name);
        assert!(!tool.description.is_empty());
        assert_eq!(tool.input_schema["type"], "object");
    }
    assert!(!is_known_tool("shell"));
    assert!(spec_for("shell").is_none());
    assert_eq!(
        spec_for("now").unwrap().input_schema,
        json(r#"{ "type": "object", "properties": {}, "required": [] }"#)
    );
    assert_eq!(
        spec_for("http_get").unwrap().input_schema,
        json(
            r#"{
                "type": "object",
                "properties": {
                    "url": { "type": "string", "description": "Absolute https:// URL to fetch." }
                },
                "required": ["url"]
            }"#
        )
    );
    assert_eq!(
        spec_for("kv_get").unwrap().input_schema,
        json(r#"{ "type": "object", "properties": { "key": { "type": "string" } }, "required": ["key"] }"#)
    );
    assert_eq!(
        spec_for("kv_put").unwrap().input_schema,
        json(
            r#"{
                "type": "object",
                "properties": { "key": { "type": "string" }, "value": { "type": "string" } },
                "required": ["key", "value"]
            }"#
        )
    );
}

#[test]
fn string_members_are_found() {
    let value = json(r#"{"a":"x","b":7}"#);
    assert_eq!(string_member(&value, "a"), Some("x".to_string()));
    assert_eq!(string_member(&value, "b"), None);
    assert_eq!(string_member(&value, "c"), None);
    assert_eq!(empty_object(), json("{}"));
}
