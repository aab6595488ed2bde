use serde_json::Value;

use tds::abi::{Content, KnownContent, LlmRequest, LlmResponse, Message, ToolSpec};
use tds::llm::{
    backoff, build, AnthropicProvider, ApiResponse, ApiUsage, Exchange, LlmProvider, ModelAccess, Next, Wait,
    FALLBACK_BETA,
};
use tds::mock::{first_line, parse_directives, MockProvider};
use tds::policy::{Effort, LlmConfig, Provider, Thinking};

fn json(text: &str) -> Value {
    serde_json::from_str(text).unwrap()
}

fn spec(name: &str) -> ToolSpec {
    ToolSpec {
        name: name.into(),
        description: "test".into(),
        input_schema: json(r#"{ "type": "object" }"#),
    }
}

#[test]
fn directives_parse_with_and_without_arguments() {
    let parsed = parse_directives("do a thing\n!tool now\n!tool kv_put {\"key\":\"a\"}\n");
    assert_eq!(parsed.len(), 2);
    assert_eq!(parsed[0].0, "now");
    assert_eq!(parsed[1].1["key"], "a");
}

#[test]
fn the_mock_only_calls_tools_the_policy_exposed() {
    let request = LlmRequest {
        system: None,
        messages: vec![Message::user(vec![Content::text("!tool now\n!tool http_get")])],
        tools: vec![spec("now")],
    };
    let response = MockProvider.complete(&request).unwrap();
    assert_eq!(response.stop_reason, "tool_use");
    // `http_get` was requested but not offered, so it is dropped.
    assert_eq!(response.content.len(), 1);
    assert_eq!(response.content[0].as_tool_use().unwrap().1, "now");
}

#[test]
fn the_mock_answers_once_results_come_back() {
    let request = LlmRequest {
        system: None,
        messages: vec![
            Message::user(vec![Content::text("!tool now")]),
            Message::user(vec![Content::tool_result("toolu_mock_0", "2026-01-01", false)]),
        ],
        tools: vec![spec("now")],
    };
    let response = MockProvider.complete(&request).unwrap();
    assert_eq!(response.stop_reason, "end_turn");
    assert!(response.joined_text().contains("2026-01-01"));
}

#[test]
fn the_request_body_omits_sampling_parameters() {
    let provider = AnthropicProvider::new(LlmConfig::default(), Some("test".into())).unwrap();
    let body = provider.body(&LlmRequest {
        system: Some("sys".into()),
        messages: vec![Message::user(vec![Content::text("hi")])],
        tools: vec![spec("now")],
    });
    assert_eq!(body["model"], LlmConfig::default().model.as_str());
    assert!(body["model"].as_str().unwrap().ends_with("opus-5"));
    assert_eq!(body["thinking"]["type"], "adaptive");
    assert_eq!(body["output_config"]["effort"], "high");
    assert_eq!(body["fallbacks"], "default");
    for rejected in ["temperature", "top_p", "top_k", "budget_tokens"] {
        assert!(body.get(rejected).is_none(), "{rejected} must not be sent");
    }
}

#[test]
fn the_whole_body_of_a_request() {
    let mut config = LlmConfig::default();
    config.model = "m".into();
    config.max_tokens = 77;
    config.summarize_thinking = true;
    let provider = AnthropicProvider::new(config, Some("test".into())).unwrap();
    let body = provider.body(&LlmRequest {
        system: Some("sys".into()),
        messages: vec![Message::user(vec![Content::text("hi")])],
        tools: vec![spec("now")],
    });
    assert_eq!(
        body,
        json(
            r#"{
                "model": "m",
                "max_tokens": 77,
                "messages": [{ "role": "user", "content": [{ "type": "text", "text": "hi" }] }],
                "output_config": { "effort": "high" },
                "thinking": { "type": "adaptive", "display": "summarized" },
                "system": "sys",
                "tools": [{ "name": "now", "description": "test", "input_schema": { "type": "object" } }],
                "fallbacks": "default"
            }"#
        )
    );
}

#[test]
fn what_is_not_there_is_not_sent() {
    let mut config = LlmConfig::default();
    config.model = "m".into();
    config.max_tokens = 1;
    config.thinking = Thinking::Disabled;
    config.effort = Effort::Low;
    config.server_side_fallback = false;
    let provider = AnthropicProvider::new(config, Some("test".into())).unwrap();
    let body = provider.body(&LlmRequest { system: None, messages: vec![], tools: vec![] });
    assert_eq!(
        body,
        json(
            r#"{
                "model": "m",
                "max_tokens": 1,
                "messages": [],
                "output_config": { "effort": "low" },
                "thinking": { "type": "disabled" }
            }"#
        )
    );
}

#[test]
fn the_address_and_the_headers() {
    let mut config = LlmConfig::default();
    config.base_url = "https://model.test//".into();
    config.model = "m".into();
    let provider = AnthropicProvider::new(config, Some("k1".into())).unwrap();
    assert_eq!(provider.url(), "https://model.test/v1/messages");
    assert_eq!(provider.describe(), "anthropic:m");
    assert_eq!(provider.request_timeout_ms(), 600_000);
    assert_eq!(
        provider.headers(),
        vec![
            ("x-api-key", "k1".to_string()),
            ("anthropic-version", "2023-06-01".to_string()),
            ("content-type", "application/json".to_string()),
            ("anthropic-beta", FALLBACK_BETA.to_string()),
        ]
    );
    let mut config = LlmConfig::default();
    config.server_side_fallback = false;
    let plain = AnthropicProvider::new(config, Some("k1".into())).unwrap();
    assert_eq!(plain.headers().len(), 3);
}

#[test]
fn a_key_must_be_there_and_not_blank() {
    let missing = match AnthropicProvider::new(LlmConfig::default(), None) {
        Ok(_) => panic!("a missing key must be refused"),
        Err(error) => error.text(),
    };
    assert_eq!(
        missing,
        "ANTHROPIC_API_KEY is not set; export an API key or set llm.provider = \"mock\" in the policy"
    );
    let blank = match AnthropicProvider::new(LlmConfig::default(), Some(" \t".into())) {
        Ok(_) => panic!("a blank key must be refused"),
        Err(error) => error.text(),
    };
    assert_eq!(blank, "ANTHROPIC_API_KEY is set but empty");
}

#[test]
fn the_configured_model_is_built() {
    let mut config = LlmConfig::default();
    assert!(matches!(build(config.clone(), Some("k".into())), Ok(ModelAccess::Anthropic(_))));
    assert!(build(config.clone(), None).is_err());
    config.provider = Provider::Mock;
    assert!(matches!(build(config, None), Ok(ModelAccess::Mock(_))));
}

#[test]
fn the_wait_doubles_up_to_a_limit() {
    let waits: Vec<u64> = (0..8).map(backoff).collect();
    assert_eq!(waits, vec![500, 1000, 2000, 4000, 8000, 16000, 16000, 16000]);
    assert_eq!(backoff(u32::MAX), 16000);
}

#[test]
fn transient_failures_are_retried_and_then_reported() {
    let mut exchange = Exchange { attempt: 0, max_retries: 2 };
    assert!(matches!(
        exchange.on_status(429, None, ""),
        Next::Retry(Wait::Millis(1000))
    ));
    assert!(matches!(
        exchange.on_status(503, Some("7".into()), ""),
        Next::Retry(Wait::Seconds(7))
    ));
    match exchange.on_status(503, Some("7".into()), "busy") {
        Next::Fail(error) => assert_eq!(error.to_string(), "upstream: model returned HTTP 503: busy"),
        other => panic!("{other:?}"),
    }
    assert!(matches!(exchange.on_status(200, None, ""), Next::Accept));
}

#[test]
fn an_unreadable_wait_falls_back_to_the_usual_one() {
    let mut exchange = Exchange { attempt: 1, max_retries: 9 };
    assert!(matches!(
        exchange.on_status(500, Some("soon".into()), ""),
        Next::Retry(Wait::Millis(2000))
    ));
}

#[test]
fn a_wrong_request_is_not_sent_again() {
    let mut exchange = Exchange { attempt: 0, max_retries: 9 };
    match exchange.on_status(400, None, &"é".repeat(300)) {
        Next::Fail(error) => assert_eq!(
            error.message,
            format!("model returned HTTP 400: {}…", "é".repeat(256))
        ),
        other => panic!("{other:?}"),
    }
    assert_eq!(exchange.attempt, 0);
    match exchange.on_status(404, None, &"x".repeat(512)) {
        Next::Fail(error) => assert_eq!(
            error.message,
            format!("model returned HTTP 404: {}", "x".repeat(512))
        ),
        other => panic!("{other:?}"),
    }
}

#[test]
fn a_broken_connection_is_retried_and_then_reported() {
    let mut exchange = Exchange { attempt: 0, max_retries: 1 };
    assert!(matches!(exchange.on_send_error("reset"), Next::Retry(Wait::Millis(1000))));
    match exchange.on_send_error("reset") {
        Next::Fail(error) => {
            assert_eq!(error.to_string(), "upstream: request to the model failed: reset")
        }
        other => panic!("{other:?}"),
    }
    assert_eq!(
        exchange.on_malformed("eof").to_string(),
        "upstream: malformed model response: eof"
    );
}

#[test]
fn a_response_without_a_reason_has_ended_its_turn() {
    let response = LlmResponse::from_api(ApiResponse {
        stop_reason: None,
        content: vec![Content::text("hi")],
        usage: ApiUsage { input_tokens: 3, output_tokens: 4 },
    });
    assert_eq!(response.stop_reason, "end_turn");
    assert_eq!((response.usage.input_tokens, response.usage.output_tokens), (3, 4));
    let other = LlmResponse::from_api(ApiResponse {
        stop_reason: Some("max_tokens".into()),
        content: vec![],
        usage: ApiUsage { input_tokens: 0, output_tokens: 0 },
    });
    assert_eq!(other.stop_reason, "max_tokens");
}

#[test]
fn directives_of_every_shape() {
    let parsed = parse_directives(
        "  !tool now  \r\n!toolnow\n!tool \n!tool a not json\n!tool b\t[1,2]\n!tool  c {}\n",
    );
    let names: Vec<&str> = parsed.iter().map(|(name, _)| name.as_str()).collect();
    assert_eq!(names, vec!["now", "a", "b", ""]);
    assert_eq!(parsed[0].1, json("{}"));
    assert_eq!(parsed[1].1, json("{}"));
    assert_eq!(parsed[2].1, json("[1,2]"));
    assert_eq!(parsed[3].1, json("{}"));
}

#[test]
fn the_first_line_is_trimmed() {
    assert_eq!(first_line(" one \ntwo"), "one");
    assert_eq!(first_line("\ntwo"), "");
    assert_eq!(first_line(""), "");
}

#[test]
fn the_mock_answers_without_tools() {
    let request = LlmRequest {
        system: None,
        messages: vec![Message::user(vec![Content::text(" just talk \nplease")])],
        tools: vec![],
    };
    let response = MockProvider.complete(&request).unwrap();
    assert_eq!(response.joined_text(), "[mock] No tools were needed. Task was: just talk");
    assert_eq!((response.usage.input_tokens, response.usage.output_tokens), (120, 30));
    assert_eq!(MockProvider.describe(), "mock");
}

#[test]
fn the_mock_numbers_its_calls() {
    let request = LlmRequest {
        system: None,
        messages: vec![Message::user(vec![Content::text(
            "!tool nope\n!tool kv_put {\"key\":\"a\"}\n!tool now",
        )])],
        tools: vec![spec("now"), spec("kv_put")],
    };
    let response = MockProvider.complete(&request).unwrap();
    let ids: Vec<&str> =
        response.content.iter().map(|block| block.as_tool_use().unwrap().0).collect();
    assert_eq!(ids, vec!["toolu_mock_0", "toolu_mock_1"]);
    assert!(matches!(
        &response.content[0],
        Content::Known(KnownContent::ToolUse { name, input, .. })
            if name == "kv_put" && *input == json(r#"{"key":"a"}"#)
    ));
    assert_eq!((response.usage.input_tokens, response.usage.output_tokens), (100, 20));
}

#[test]
fn the_mock_joins_the_results() {
    let request = LlmRequest {
        system: None,
        messages: vec![Message::user(vec![
            Content::tool_result("a", "one", false),
            Content::tool_result("b", "two", true),
        ])],
        tools: vec![],
    };
    let response = MockProvider.complete(&request).unwrap();
    assert_eq!(response.joined_text(), "[mock] Tool results: one | two");
}
