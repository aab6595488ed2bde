use std::sync::Arc;

use serde_json::Value;

use tds::abi::{
    CapError, CapResponse, Content, LlmRequest, LlmResponse, Message, ToolInvokeRequest,
};
use tds::cap::{LLM_COMPLETE, TOOLS_LIST, TOOL_INVOKE};
use tds::error_code::{BAD_POINTER, BAD_REQUEST};
use tds::exports::{
    hand_to_host, input_rejected, must_free, on_called, on_copied, on_decoded, plan_alloc, tds_abi_version,
    unencodable, AllocPlan, CallOutcome, ENCODING_FAILED,
};
use tds::guest::{read_guest, write_guest};
use tds::host::{
    encoding_failure, fetched, payload, route, CallStep, CapReply, CapRequest, HostState, Payload, Route,
    MAX_LOG_LINES,
};
use tds::llm::LlmProvider;
use tds::mock::MockProvider;
use tds::policy::Policy;

fn json(text: &str) -> Value {
    serde_json::from_str(text).unwrap()
}

fn host(change: fn(&mut Policy)) -> HostState<MockProvider> {
    let mut policy = Policy::default();
    change(&mut policy);
    HostState::new(Arc::new(policy), MockProvider)
}

fn turn() -> CapRequest {
    CapRequest::LlmComplete(Payload::Decoded(LlmRequest {
        system: None,
        messages: vec![Message::user(vec![Content::text("hi")])],
        tools: vec![],
    }))
}

fn invoke(name: &str, input: &str) -> CapRequest {
    CapRequest::ToolInvoke(Payload::Decoded(ToolInvokeRequest {
        name: name.into(),
        input: json(input),
    }))
}

#[test]
fn memory_is_read_inside_its_bounds_only() {
    let memory = [1u8, 2, 3, 4];
    assert_eq!(read_guest(Some(&memory), 1, 2), Some(vec![2, 3]));
    assert_eq!(read_guest(Some(&memory), 0, 4), Some(vec![1, 2, 3, 4]));
    assert_eq!(read_guest(Some(&memory), 4, 0), Some(vec![]));
    assert_eq!(read_guest(Some(&memory), 5, 0), None);
    assert_eq!(read_guest(Some(&memory), 3, 2), None);
    assert_eq!(read_guest(Some(&memory), u32::MAX, u32::MAX), None);
    assert_eq!(read_guest(None, 0, 0), None);
}

#[test]
fn memory_is_written_inside_its_bounds_only() {
    let mut memory = [1u8, 2, 3, 4];
    assert!(write_guest(Some(&mut memory), 1, &[8, 9]));
    assert_eq!(memory, [1, 8, 9, 4]);
    assert!(!write_guest(Some(&mut memory), 3, &[7, 7]));
    assert!(!write_guest(Some(&mut memory), u32::MAX, &[7]));
    assert_eq!(memory, [1, 8, 9, 4]);
    assert!(write_guest(Some(&mut memory), 4, &[]));
    assert!(!write_guest(None, 0, &[]));
    assert_eq!(read_guest(Some(&memory), 1, 2), Some(vec![8, 9]));
}

#[test]
fn names_are_routed() {
    assert_eq!(route(TOOLS_LIST), Route::ToolsList);
    assert_eq!(route(TOOL_INVOKE), Route::ToolInvoke);
    assert_eq!(route(LLM_COMPLETE), Route::LlmComplete);
    assert_eq!(route("tools.List"), Route::Unknown);
    assert_eq!((TOOLS_LIST, TOOL_INVOKE, LLM_COMPLETE), ("tools.list", "tool.invoke", "llm.complete"));
}

#[test]
fn log_lines_are_kept_up_to_a_number() {
    let mut host = host(|_| ());
    let memory = b"a\xffz";
    let line = host.log(Some(memory), 2, 0, 3).unwrap();
    assert_eq!((line.level.as_str(), line.message.as_str()), ("warn", "a\u{fffd}z"));
    assert!(host.log(Some(memory), 2, 1, 3).is_none());
    assert!(host.log(None, 2, 0, 0).is_none());
    for _ in 0..MAX_LOG_LINES + 5 {
        assert!(host.log(Some(memory), 0, 0, 1).is_some());
    }
    let logs = host.take_logs();
    assert_eq!(logs.len(), 512);
    assert_eq!(logs[0].message, "a\u{fffd}z");
    assert!(host.take_logs().is_empty());
}

#[test]
fn a_log_line_is_cut() {
    let mut host = host(|_| ());
    let memory = vec![b'x'; 10_000];
    let line = host.log(Some(&memory), 1, 0, 10_000).unwrap();
    assert_eq!(line.message.len(), 8 * 1024);
    // What counts is the part that is kept.
    assert!(host.log(Some(&memory), 1, 0, u32::MAX).is_some());
}

#[test]
fn calls_are_looked_at_inside_the_bounds_only() {
    let host = host(|p| p.limits.max_request_bytes = 4);
    let memory = b"tools.list{}\xff";
    match host.admit_call(Some(memory), 0, 10, 10, 2) {
        CallStep::Dispatch { name, request } => {
            assert_eq!(name, "tools.list");
            assert_eq!(request, b"{}");
        }
        other => panic!("{other:?}"),
    }
    match host.admit_call(Some(memory), 0, 10, 0, 5) {
        CallStep::Refuse(error) => assert_eq!(
            error.to_string(),
            "invalid: capability request of 5 bytes exceeds the 4 byte limit"
        ),
        other => panic!("{other:?}"),
    }
    match host.admit_call(Some(memory), 0, 257, 0, 1) {
        CallStep::Refuse(error) => assert_eq!(
            error.to_string(),
            "invalid: capability request of 1 bytes exceeds the 4 byte limit"
        ),
        other => panic!("{other:?}"),
    }
    assert!(matches!(host.admit_call(Some(memory), 12, 1, 0, 1), CallStep::Return(BAD_REQUEST)));
    assert!(matches!(host.admit_call(Some(memory), 12, 2, 0, 1), CallStep::Return(BAD_POINTER)));
    assert!(matches!(host.admit_call(Some(memory), 0, 1, 12, 2), CallStep::Return(BAD_POINTER)));
    assert!(matches!(host.admit_call(None, 0, 0, 0, 0), CallStep::Return(BAD_POINTER)));
}

#[test]
fn a_response_is_read_once_by_its_length() {
    let mut host = host(|_| ());
    assert_eq!(host.deliver(b"abc".to_vec()), 3);
    let mut memory = [0u8; 8];
    assert_eq!(host.response_read(Some(&mut memory), 2, 2), BAD_REQUEST);
    assert_eq!(memory, [0; 8]);
    assert_eq!(host.response_read(Some(&mut memory), 2, 3), 3);
    assert_eq!(&memory, b"\0\0abc\0\0\0");
    assert_eq!(host.response_read(Some(&mut memory), 2, 3), BAD_REQUEST);
    assert_eq!(host.response_read(Some(&mut memory), 2, 0), 0);
}

#[test]
fn a_response_asked_for_elsewhere_is_lost() {
    let mut host = host(|_| ());
    host.deliver(b"abc".to_vec());
    let mut memory = [0u8; 4];
    assert_eq!(host.response_read(Some(&mut memory), 2, 3), BAD_POINTER);
    assert_eq!(host.response_read(Some(&mut memory), 0, 3), BAD_REQUEST);
    assert_eq!(memory, [0; 4]);
    host.deliver(b"x".to_vec());
    assert_eq!(host.response_read(None, 0, 1), BAD_POINTER);
}

#[test]
fn the_enabled_tools_are_listed() {
    let mut host = host(|p| p.tools.enabled = vec!["kv_put".into(), "now".into()]);
    match host.dispatch(CapRequest::ToolsList) {
        CapReply::Tools(CapResponse::Success(list)) => {
            let names: Vec<String> = list.tools.into_iter().map(|t| t.name).collect();
            assert_eq!(names, vec!["kv_put", "now"]);
        }
        other => panic!("{other:?}"),
    }
}

#[test]
fn tools_are_invoked() {
    let mut host = host(|p| {
        p.tools.enabled = vec!["kv_put".into(), "kv_get".into(), "http_get".into(), "now".into()];
        p.tools.http.allowed_hosts = vec!["a.test".into()];
    });
    match host.dispatch(invoke("kv_put", r#"{"key":"k","value":"v"}"#)) {
        CapReply::Tool(CapResponse::Success(reply)) => assert_eq!(reply.content, "stored \"k\""),
        other => panic!("{other:?}"),
    }
    match host.dispatch(invoke("kv_get", r#"{"key":"k"}"#)) {
        CapReply::Tool(CapResponse::Success(reply)) => assert_eq!(reply.content, "v"),
        other => panic!("{other:?}"),
    }
    match host.dispatch(invoke("http_get", r#"{"url":"https://a.test/x"}"#)) {
        CapReply::Fetch(fetch) => assert_eq!(fetch.url, "https://a.test/x"),
        other => panic!("{other:?}"),
    }
    assert!(matches!(
        host.dispatch(invoke("now", "{}")),
        CapReply::Tool(CapResponse::Success(_))
    ));
    match host.dispatch(invoke("shell", "{}")) {
        CapReply::Tool(CapResponse::Failure(error)) => assert_eq!(error.kind, "denied"),
        other => panic!("{other:?}"),
    }
    match host.dispatch(CapRequest::ToolInvoke(Payload::WrongShape("eof".into()))) {
        CapReply::Tool(CapResponse::Failure(error)) => {
            assert_eq!(error.to_string(), "invalid: malformed tool.invoke request: eof")
        }
        other => panic!("{other:?}"),
    }
}

#[test]
fn a_request_that_is_no_json_ends_with_a_code() {
    let complaint = || -> Result<ToolInvokeRequest, String> { Err("why".into()) };
    for bytes in [&b"not json"[..], b"", b"{", b"{\"name\":5, bad", b"\"\xff\"", b"{} {}"] {
        assert!(matches!(payload(bytes.to_vec(), complaint()), Payload::NotJson), "{bytes:?}");
    }
    for bytes in [&b"{}"[..], b" null ", b"[1]", b"{\"name\":5}", "\"é\"".as_bytes()] {
        assert!(
            matches!(payload(bytes.to_vec(), complaint()), Payload::WrongShape(e) if e == "why"),
            "{bytes:?}"
        );
    }
    assert!(matches!(payload(b"7".to_vec(), Ok(7)), Payload::Decoded(7)));

    let mut host = host(|p| p.limits.max_steps = 1);
    host.deliver(b"abc".to_vec());
    assert!(matches!(
        host.dispatch(CapRequest::ToolInvoke(Payload::NotJson)),
        CapReply::Code(BAD_REQUEST)
    ));
    assert!(matches!(
        host.dispatch(CapRequest::LlmComplete(Payload::NotJson)),
        CapReply::Code(BAD_REQUEST)
    ));
    // Neither the pending response nor the count of turns has changed.
    let mut memory = [0u8; 3];
    assert_eq!(host.response_read(Some(&mut memory), 0, 3), 3);
    assert!(matches!(host.dispatch(turn()), CapReply::Model(CapResponse::Success(_))));
    match on_called("tool.invoke", BAD_REQUEST) {
        CallOutcome::Failed(error) => assert_eq!(
            error.to_string(),
            "host: tool.invoke: host could not decode the request"
        ),
        other => panic!("{other:?}"),
    }
}

#[test]
fn what_does_not_exist_is_refused_by_name() {
    let mut host = host(|_| ());
    match host.dispatch(CapRequest::Unknown("fs.\"read\"".into())) {
        CapReply::Refused(error) => assert_eq!(
            error.to_string(),
            "not_found: this host provides no capability named \"fs.\\\"read\\\"\""
        ),
        other => panic!("{other:?}"),
    }
}

#[test]
fn the_host_counts_the_model_turns_itself() {
    let mut host = host(|p| p.limits.max_steps = 2);
    let malformed = || CapRequest::LlmComplete(Payload::WrongShape("eof".into()));
    match host.dispatch(malformed()) {
        CapReply::Model(CapResponse::Failure(error)) => {
            assert_eq!(error.to_string(), "invalid: malformed llm.complete request: eof")
        }
        other => panic!("{other:?}"),
    }
    assert!(matches!(host.dispatch(turn()), CapReply::Model(CapResponse::Success(_))));
    assert!(matches!(host.dispatch(turn()), CapReply::Model(CapResponse::Success(_))));
    for request in [turn(), malformed()] {
        match host.dispatch(request) {
            CapReply::Model(CapResponse::Failure(error)) => assert_eq!(
                error.to_string(),
                "denied: this run has already used its 2 model turns"
            ),
            other => panic!("{other:?}"),
        }
    }
    assert_eq!(host.describe_model(), "mock");
}

struct Broken;

impl LlmProvider for Broken {
    fn complete(&self, _request: &LlmRequest) -> Result<LlmResponse, CapError> {
        Err(CapError::upstream("down"))
    }

    fn describe(&self) -> String {
        "broken".to_string()
    }
}

#[test]
fn a_failed_turn_counts_too() {
    let mut policy = Policy::default();
    policy.limits.max_steps = 1;
    let mut host = HostState::new(Arc::new(policy), Broken);
    match host.dispatch(turn()) {
        CapReply::Model(CapResponse::Failure(error)) => {
            assert_eq!(error.to_string(), "upstream: down")
        }
        other => panic!("{other:?}"),
    }
    match host.dispatch(turn()) {
        CapReply::Model(CapResponse::Failure(error)) => assert_eq!(error.kind, "denied"),
        other => panic!("{other:?}"),
    }
}

#[test]
fn fetches_and_failures_are_put_in_their_envelope() {
    match fetched(Ok("HTTP 200".into())) {
        CapResponse::Success(reply) => assert_eq!(reply.content, "HTTP 200"),
        other => panic!("{other:?}"),
    }
    assert!(matches!(fetched(Err(CapError::upstream("x"))), CapResponse::Failure(_)));
    assert_eq!(
        encoding_failure("why").to_string(),
        "internal: host could not encode its response: why"
    );
}

#[test]
fn the_guest_understands_the_host() {
    assert_eq!(tds_abi_version(), 1);
    let failure = |code: i32| match on_called("tools.list", code) {
        CallOutcome::Failed(error) => error.to_string(),
        other => panic!("{other:?}"),
    };
    assert_eq!(failure(-1), "host: tools.list: host rejected a memory reference");
    assert_eq!(failure(-2), "host: tools.list: host could not decode the request");
    assert_eq!(failure(-3), "host: tools.list: host failed internally");
    assert_eq!(failure(-4), "host: tools.list: unknown host failure");
    assert_eq!(failure(i32::MIN), "host: tools.list: unknown host failure");
    assert!(matches!(on_called("tools.list", 0), CallOutcome::Empty));
    assert!(matches!(on_called("tools.list", 9), CallOutcome::Read(9)));
    assert!(on_copied("tools.list", 9, 9).is_ok());
    for copied in [8, 10, -1, i32::MIN] {
        assert_eq!(
            on_copied("tools.list", 9, copied).unwrap_err().to_string(),
            "host: tools.list: truncated response"
        );
    }
    assert!(on_copied("tools.list", u32::MAX, -1).is_err());
    let bad: Result<u32, CapError> = on_decoded("tools.list", Err("eof".into()));
    assert_eq!(bad.unwrap_err().to_string(), "host: tools.list: malformed response: eof");
    assert_eq!(on_decoded("tools.list", Ok(CapResponse::Success(3u32))).unwrap(), 3);
    assert_eq!(
        unencodable("tools.list", "why").to_string(),
        "invalid: could not encode tools.list request: why"
    );
}

#[test]
fn the_guest_hands_out_and_takes_back_memory() {
    assert_eq!(plan_alloc(0), AllocPlan::Answer(1));
    assert_eq!(plan_alloc(7), AllocPlan::Allocate(7));
    assert!(must_free(1024, 7));
    assert!(!must_free(0, 7));
    assert!(!must_free(1, 7));
    assert!(!must_free(1024, 0));
    assert_eq!(hand_to_host(0, 7), 0);
    assert_eq!(hand_to_host(2, 7), 0x2_0000_0007);
    assert_eq!(
        input_rejected("eof").answer,
        "could not parse agent input: eof"
    );
    assert_eq!(json(ENCODING_FAILED)["answer"], "serialization failed");
    assert_eq!(json(ENCODING_FAILED)["stop"], "error");
}

#[test]
fn a_response_goes_from_host_to_guest_whole() {
    let mut host = host(|_| ());
    let response = b"{\"ok\":{}}".to_vec();
    let code = host.deliver(response.clone());
    let mut memory = [0u8; 32];
    match on_called("tools.list", code) {
        CallOutcome::Read(len) => {
            let copied = host.response_read(Some(&mut memory), 8, len);
            assert!(on_copied("tools.list", len, copied).is_ok());
            assert_eq!(read_guest(Some(&memory), 8, len), Some(response));
        }
        other => panic!("{other:?}"),
    }
}
