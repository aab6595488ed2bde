use tds::abi::{
    pack_ptr_len, unpack_ptr_len, AgentOutput, CapError, CapResponse, Content, KnownContent, LlmResponse, LogLevel,
    Message, Role, StopReason, Usage,
};
use tds::host::respond;

#[test]
fn ptr_len_roundtrips() {
    let (p, l) = unpack_ptr_len(pack_ptr_len(0xdead_beef, 4096));
    assert_eq!((p, l), (0xdead_beef, 4096));
}

#[test]
fn a_pointer_is_the_upper_half() {
    assert_eq!(pack_ptr_len(1, 2), 0x1_0000_0002);
    assert_eq!(pack_ptr_len(u32::MAX, u32::MAX), u64::MAX);
    assert_eq!(unpack_ptr_len(0), (0, 0));
}

#[test]
fn levels_survive_the_boundary() {
    for level in [LogLevel::Debug, LogLevel::Info, LogLevel::Warn, LogLevel::Error] {
        assert_eq!(LogLevel::from_i32(level.to_i32()), level);
    }
    assert_eq!(LogLevel::Debug.to_i32(), 0);
    assert_eq!(LogLevel::Error.to_i32(), 3);
    assert_eq!(LogLevel::from_i32(-1), LogLevel::Info);
    assert_eq!(LogLevel::from_i32(99), LogLevel::Info);
    assert_eq!(LogLevel::Warn.as_str(), "warn");
}

#[test]
fn failures_carry_their_kind() {
    assert_eq!(CapError::denied("no").kind, "denied");
    assert_eq!(CapError::not_found("no").kind, "not_found");
    assert_eq!(CapError::upstream("no").kind, "upstream");
    assert_eq!(CapError::invalid("no").kind, "invalid");
    assert_eq!(CapError::new("host", "gone").to_string(), "host: gone");
}

#[test]
fn a_result_comes_out_of_its_envelope() {
    let fine: Result<u32, CapError> = respond(Ok(7)).into_result();
    assert_eq!(fine.unwrap(), 7);
    let failed: Result<u32, CapError> = respond(Err(CapError::denied("no"))).into_result();
    assert_eq!(failed.unwrap_err().to_string(), "denied: no");
    assert!(matches!(respond::<u32>(Err(CapError::denied("no"))), CapResponse::Failure(_)));
}

#[test]
fn usage_adds_up() {
    let mut usage = Usage::default();
    usage.add(Usage { input_tokens: 10, output_tokens: 5 });
    usage.add(Usage { input_tokens: 1, output_tokens: 2 });
    assert_eq!((usage.input_tokens, usage.output_tokens), (11, 7));
    assert!(!usage.can_add(Usage { input_tokens: u64::MAX, output_tokens: 0 }));
    assert!(!usage.can_add(Usage { input_tokens: 0, output_tokens: u64::MAX }));
    assert!(usage.can_add(Usage { input_tokens: u64::MAX - 11, output_tokens: u64::MAX - 7 }));
}

#[test]
fn only_text_blocks_are_joined() {
    let response = LlmResponse {
        stop_reason: "end_turn".into(),
        content: vec![
            Content::text("  one"),
            Content::Known(KnownContent::RedactedThinking { data: "hidden".into() }),
            Content::text("two \n"),
        ],
        usage: Usage::default(),
    };
    assert_eq!(response.joined_text(), "one\ntwo");
}

#[test]
fn blocks_are_recognised() {
    let text = Content::text("hi");
    assert_eq!(text.as_text(), Some("hi"));
    assert!(text.as_tool_use().is_none());
    let result = Content::tool_result("t1", "ok", true);
    assert!(result.as_text().is_none());
    assert!(matches!(
        result,
        Content::Known(KnownContent::ToolResult { is_error: true, .. })
    ));
    assert_eq!(Message::user(vec![text]).role, Role::User);
    assert_eq!(Message::assistant(vec![result]).role, Role::Assistant);
}

#[test]
fn a_failed_output_reports_nothing_but_the_failure() {
    let output = AgentOutput::failed("why".to_string());
    assert_eq!(output.answer, "why");
    assert_eq!(output.steps, 0);
    assert_eq!(output.stop, StopReason::Error);
    assert!(output.tool_calls.is_empty());
    assert_eq!((output.usage.input_tokens, output.usage.output_tokens), (0, 0));
}
