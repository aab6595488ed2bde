use serde_json::Value;

use tds::abi::{
    AgentInput, AgentOutput, CapError, Content, KnownContent, LlmResponse, LogLevel, Role, StopReason,
    ToolInvokeResponse, ToolSpec, ToolsListResponse, Usage,
};
use tds::agent::{open_session, truncate, Advance, AgentState, Batch, Session, SYSTEM_PROMPT};

fn json(text: &str) -> Value {
    serde_json::from_str(text).unwrap()
}

fn input(context: Option<&str>, max_steps: u32) -> AgentInput {
    AgentInput { task: "do it".into(), context: context.map(str::to_string), max_steps }
}

fn tools(names: &[&str]) -> Result<ToolsListResponse, CapError> {
    Ok(ToolsListResponse {
        tools: names
            .iter()
            .map(|name| ToolSpec {
                name: name.to_string(),
                description: "test".into(),
                input_schema: json("{}"),
            })
            .collect(),
    })
}

fn turn(stop_reason: &str, content: Vec<Content>) -> Result<LlmResponse, CapError> {
    Ok(LlmResponse {
        stop_reason: stop_reason.into(),
        content,
        usage: Usage { input_tokens: 10, output_tokens: 5 },
    })
}

fn call(id: &str, name: &str) -> Content {
    Content::Known(KnownContent::ToolUse { id: id.into(), name: name.into(), input: json("{}") })
}

fn reply(content: &str) -> Result<ToolInvokeResponse, CapError> {
    Ok(ToolInvokeResponse { content: content.into() })
}

fn thinking(advance: Advance) -> Session {
    match advance.state {
        AgentState::Thinking(session) => session,
        _ => panic!("the agent should ask the model"),
    }
}

fn acting(advance: Advance) -> (Session, Batch) {
    match advance.state {
        AgentState::Acting(session, batch) => (session, batch),
        _ => panic!("the agent should call a tool"),
    }
}

fn finished(advance: Advance) -> AgentOutput {
    match advance.state {
        AgentState::Finished(output) => output,
        _ => panic!("the agent should be done"),
    }
}

fn logs(advance: &Advance) -> Vec<(LogLevel, &str)> {
    advance.logs.iter().map(|line| (line.level, line.message.as_str())).collect()
}

#[test]
fn a_run_opens_with_the_context_and_the_task() {
    let advance = open_session(input(Some("it is late"), 4), tools(&["now", "kv_get"]));
    assert_eq!(logs(&advance), vec![(LogLevel::Info, "agent starting with 2 tool(s)")]);
    let request = thinking(advance).request();
    assert_eq!(request.system.as_deref(), Some(SYSTEM_PROMPT));
    assert_eq!(request.tools.len(), 2);
    assert_eq!(request.messages.len(), 2);
    assert_eq!(
        request.messages[0].content[0].as_text(),
        Some("Background context:\nit is late")
    );
    assert_eq!(request.messages[1].content[0].as_text(), Some("do it"));
}

#[test]
fn a_blank_context_is_left_out() {
    for context in [None, Some(""), Some(" \n\t")] {
        let request = thinking(open_session(input(context, 4), tools(&[]))).request();
        assert_eq!(request.messages.len(), 1);
        assert_eq!(request.messages[0].role, Role::User);
    }
}

#[test]
fn a_run_without_tools_is_still_a_run() {
    let advance = open_session(input(None, 4), Err(CapError::denied("no")));
    assert_eq!(
        logs(&advance),
        vec![
            (LogLevel::Warn, "no tools available: denied: no"),
            (LogLevel::Info, "agent starting with 0 tool(s)"),
        ]
    );
    assert!(thinking(advance).request().tools.is_empty());
}

#[test]
fn an_answer_ends_the_run() {
    let session = thinking(open_session(input(None, 4), tools(&[])));
    let output = finished(session.on_model(turn("end_turn", vec![Content::text(" done ")])));
    assert_eq!(output.stop, StopReason::Completed);
    assert_eq!(output.answer, "done");
    assert_eq!(output.steps, 1);
    assert_eq!((output.usage.input_tokens, output.usage.output_tokens), (10, 5));
}

#[test]
fn a_refusal_ends_the_run_even_with_tool_calls() {
    let session = thinking(open_session(input(None, 4), tools(&["now"])));
    let content = vec![Content::text("I will not"), call("t1", "now")];
    let output = finished(session.on_model(turn("refusal", content)));
    assert_eq!(output.stop, StopReason::Refusal);
    assert_eq!(output.answer, "I will not");
    assert_eq!(output.steps, 1);
}

#[test]
fn a_failed_model_call_ends_the_run() {
    let session = thinking(open_session(input(None, 4), tools(&[])));
    let advance = session.on_model(Err(CapError::upstream("down")));
    assert_eq!(logs(&advance), vec![(LogLevel::Error, "model turn 1 failed: upstream: down")]);
    let output = finished(advance);
    assert_eq!(output.stop, StopReason::Error);
    assert_eq!(output.answer, "The model call failed at step 1: upstream: down");
    assert_eq!(output.steps, 0);
}

#[test]
fn a_turn_is_echoed_and_its_results_go_back_in_one_message() {
    let session = thinking(open_session(input(None, 4), tools(&["now", "kv_get"])));
    let wire = json(r#"{"type":"some_future_block","x":1}"#);
    let content = vec![
        Content::Known(KnownContent::Thinking {
            thinking: String::new(),
            signature: Some("sig".into()),
        }),
        Content::Raw(wire.clone()),
        call("t1", "now"),
        call("t2", "kv_get"),
    ];
    let advance = session.on_model(turn("tool_use", content));
    assert_eq!(logs(&advance), vec![(LogLevel::Info, "step 1: calling tool now")]);
    let (session, batch) = acting(advance);
    assert_eq!(batch.request().name, "now");
    let advance = session.on_tool(batch, reply("noon"));
    assert_eq!(logs(&advance), vec![(LogLevel::Info, "step 1: calling tool kv_get")]);
    let (session, batch) = acting(advance);
    assert_eq!(batch.request().name, "kv_get");
    let advance = session.on_tool(batch, Err(CapError::denied("no")));
    assert!(advance.logs.is_empty());
    let session = thinking(advance);
    let request = session.request();
    assert_eq!(request.messages.len(), 3);
    let echoed = &request.messages[1];
    assert_eq!(echoed.role, Role::Assistant);
    assert_eq!(echoed.content.len(), 4);
    assert!(matches!(
        &echoed.content[0],
        Content::Known(KnownContent::Thinking { signature: Some(s), .. }) if s == "sig"
    ));
    assert!(matches!(&echoed.content[1], Content::Raw(value) if *value == wire));
    let results = &request.messages[2];
    assert_eq!(results.role, Role::User);
    assert_eq!(results.content.len(), 2);
    assert!(matches!(
        &results.content[0],
        Content::Known(KnownContent::ToolResult { tool_use_id, content, is_error: false })
            if tool_use_id == "t1" && content == "noon"
    ));
    assert!(matches!(
        &results.content[1],
        Content::Known(KnownContent::ToolResult { tool_use_id, content, is_error: true })
            if tool_use_id == "t2" && content == "denied: no"
    ));
    let output = finished(session.on_model(turn("end_turn", vec![Content::text("done")])));
    assert_eq!(output.steps, 2);
    assert_eq!(output.tool_calls.len(), 2);
    assert_eq!((output.tool_calls[0].step, output.tool_calls[0].ok), (1, true));
    assert_eq!(output.tool_calls[0].result, "noon");
    assert_eq!((output.tool_calls[1].step, output.tool_calls[1].ok), (1, false));
    assert_eq!(output.usage.input_tokens, 20);
}

#[test]
fn the_step_limit_ends_the_run() {
    let session = thinking(open_session(input(None, 1), tools(&["now"])));
    let (session, batch) = acting(session.on_model(turn("tool_use", vec![call("t1", "now")])));
    let advance = session.on_tool(batch, reply("noon"));
    assert_eq!(logs(&advance), vec![(LogLevel::Warn, "agent hit its step limit")]);
    let output = finished(advance);
    assert_eq!(output.stop, StopReason::StepLimit);
    assert_eq!(output.steps, 1);
    assert_eq!(
        output.answer,
        "Stopped after reaching the step limit without producing a final answer."
    );
    assert_eq!(output.tool_calls.len(), 1);
}

#[test]
fn a_ceiling_of_no_steps_ends_the_run_before_the_model_is_asked() {
    let advance = open_session(input(None, 0), tools(&["now"]));
    assert_eq!(
        logs(&advance),
        vec![
            (LogLevel::Info, "agent starting with 1 tool(s)"),
            (LogLevel::Warn, "agent hit its step limit"),
        ]
    );
    let output = finished(advance);
    assert_eq!(output.stop, StopReason::StepLimit);
    assert_eq!(output.steps, 0);
    assert_eq!((output.usage.input_tokens, output.usage.output_tokens), (0, 0));
    assert!(output.tool_calls.is_empty());
}

#[test]
fn the_audit_trail_is_cut_and_the_model_reads_all() {
    let session = thinking(open_session(input(None, 4), tools(&["now"])));
    let (session, batch) = acting(session.on_model(turn("tool_use", vec![call("t1", "now")])));
    let long = "x".repeat(600);
    let session = thinking(session.on_tool(batch, reply(&long)));
    let request = session.request();
    assert!(matches!(
        &request.messages[2].content[0],
        Content::Known(KnownContent::ToolResult { content, .. }) if *content == long
    ));
    let output = finished(session.on_model(turn("end_turn", vec![])));
    assert_eq!(
        output.tool_calls[0].result,
        format!("{}… [88 bytes truncated]", "x".repeat(512))
    );
    assert_eq!(output.answer, "");
}

#[test]
fn a_cut_never_splits_a_character() {
    assert_eq!(truncate("héllo", 6), "héllo");
    assert_eq!(truncate("héllo", 2), "h… [5 bytes truncated]");
    assert_eq!(truncate("héllo", 0), "… [6 bytes truncated]");
}

#[test]
fn tokens_that_cannot_be_counted_are_noticed() {
    let session = thinking(open_session(input(None, 4), tools(&["now"])));
    assert!(session.can_spend(Usage { input_tokens: u64::MAX, output_tokens: 0 }));
    let (session, batch) = acting(session.on_model(turn("tool_use", vec![call("t1", "now")])));
    let session = thinking(session.on_tool(batch, reply("noon")));
    assert!(!session.can_spend(Usage { input_tokens: u64::MAX, output_tokens: 0 }));
}
