use serde_json::Value;

use tds::abi::{Content, KnownContent, Message, ToolSpec};
use tds::wire::{content_json, content_of_json, message_json, tools_json};

fn json(text: &str) -> Value {
    serde_json::from_str(text).unwrap()
}

#[test]
fn known_blocks_use_the_messages_api_shape() {
    let block = Content::Known(KnownContent::ToolUse {
        id: "toolu_1".into(),
        name: "http_get".into(),
        input: json(r#"{ "url": "https://example.com" }"#),
    });
    let wire = content_json(&block);
    assert_eq!(wire["type"], "tool_use");
    assert_eq!(wire["name"], "http_get");
}

#[test]
fn unknown_blocks_survive_a_round_trip() {
    // A block type this crate has never heard of must still come back out
    // byte-identical, so future API additions cannot break the replay.
    let wire = json(r#"{ "type": "some_future_block", "payload": [1, 2, 3] }"#);
    let parsed: Content = content_of_json(wire.clone());
    assert!(matches!(parsed, Content::Raw(_)));
    assert_eq!(content_json(&parsed), wire);
}

#[test]
fn thinking_signatures_survive_a_round_trip() {
    let wire = json(r#"{ "type": "thinking", "thinking": "", "signature": "sig-abc" }"#);
    let parsed: Content = content_of_json(wire.clone());
    assert_eq!(content_json(&parsed), wire);
}

#[test]
fn every_known_block_is_written_and_read_back() {
    for text in [
        r#"{"type":"text","text":"hi"}"#,
        r#"{"type":"thinking","thinking":"hm"}"#,
        r#"{"type":"thinking","thinking":"hm","signature":"s"}"#,
        r#"{"type":"redacted_thinking","data":"x"}"#,
        r#"{"type":"tool_use","id":"t1","name":"now","input":null}"#,
        r#"{"type":"tool_use","id":"t1","name":"now","input":{"a":[1.5,true,"x"]}}"#,
        r#"{"type":"tool_result","tool_use_id":"t1","content":"c"}"#,
        r#"{"type":"tool_result","tool_use_id":"t1","content":"c","is_error":true}"#,
    ] {
        let block = content_of_json(json(text));
        assert!(matches!(block, Content::Known(_)), "{text}");
        assert_eq!(content_json(&block), json(text));
    }
}

#[test]
fn defaults_are_not_written() {
    let result = r#"{"type":"tool_result","tool_use_id":"t1","content":"c","is_error":false}"#;
    assert_eq!(
        content_json(&content_of_json(json(result))),
        json(r#"{"type":"tool_result","tool_use_id":"t1","content":"c"}"#)
    );
    let thinking = r#"{"type":"thinking","thinking":"hm","signature":null}"#;
    assert_eq!(
        content_json(&content_of_json(json(thinking))),
        json(r#"{"type":"thinking","thinking":"hm"}"#)
    );
    let text = r#"{"type":"text","text":"hi","citations":[]}"#;
    assert_eq!(content_json(&content_of_json(json(text))), json(r#"{"type":"text","text":"hi"}"#));
}

#[test]
fn blocks_that_are_not_what_they_claim_are_carried_as_they_are() {
    for text in [
        r#"{"type":"text"}"#,
        r#"{"type":"text","text":7}"#,
        r#"{"type":"thinking","thinking":"hm","signature":7}"#,
        r#"{"type":"thinking","signature":"s"}"#,
        r#"{"type":"redacted_thinking"}"#,
        r#"{"type":"tool_use","id":"t1","name":"now"}"#,
        r#"{"type":"tool_use","name":"now","input":{}}"#,
        r#"{"type":"tool_result","tool_use_id":"t1","content":[{"type":"text","text":"c"}]}"#,
        r#"{"type":"tool_result","tool_use_id":"t1","content":"c","is_error":null}"#,
        r#"{"text":"hi"}"#,
        r#""text""#,
        "null",
        "[1,2]",
    ] {
        let block = content_of_json(json(text));
        assert!(matches!(block, Content::Raw(_)), "{text}");
        assert_eq!(content_json(&block), json(text));
    }
}

#[test]
fn messages_and_tools_have_their_shape() {
    assert_eq!(
        message_json(&Message::assistant(vec![Content::text("hi")])),
        json(r#"{"role":"assistant","content":[{"type":"text","text":"hi"}]}"#)
    );
    assert_eq!(
        message_json(&Message::user(vec![])),
        json(r#"{"role":"user","content":[]}"#)
    );
    let tools = vec![ToolSpec {
        name: "now".into(),
        description: "the time".into(),
        input_schema: json(r#"{"type":"object"}"#),
    }];
    assert_eq!(
        tools_json(&tools),
        json(r#"[{"name":"now","description":"the time","input_schema":{"type":"object"}}]"#)
    );
}
