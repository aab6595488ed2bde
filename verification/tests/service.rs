use serde_json::Value;

use tds::abi::{AgentOutput, StopReason, ToolCallRecord, Usage};
use tds::policy::{Effort, Policy};
use tds::runtime::RunReport;
use tds::service::{accept_run, check_text, default_steps, policy_summary, report_text, RunRequest};

fn request(task: &str) -> RunRequest {
    RunRequest { task: task.into(), context: Some("c".into()), max_steps: 9 }
}

fn record(step: u32, name: &str, ok: bool) -> ToolCallRecord {
    ToolCallRecord { step, name: name.into(), input: Value::Null, ok, result: String::new() }
}

#[test]
fn a_blank_task_is_not_accepted() {
    for task in ["", " ", "\n\t", "\u{2003}"] {
        assert_eq!(accept_run(request(task)).unwrap_err(), "task must not be empty");
    }
    let input = accept_run(request(" x ")).unwrap();
    assert_eq!(input.task, " x ");
    assert_eq!(input.context.as_deref(), Some("c"));
    assert_eq!(input.max_steps, 9);
    assert_eq!(default_steps(), 4);
}

#[test]
fn a_report_is_written_out() {
    let report = RunReport {
        output: AgentOutput {
            answer: "Saved it.".into(),
            steps: 2,
            stop: StopReason::Completed,
            tool_calls: vec![record(1, "kv_put", true), record(2, "http_get", false)],
            usage: Usage { input_tokens: 20, output_tokens: 10 },
        },
        model: "mock".into(),
        duration_ms: 31,
        fuel_used: 12345,
        logs: vec![],
    };
    assert_eq!(
        report_text(&report),
        "Saved it.\n\n— Completed after 2 step(s) in 31 ms via mock (fuel 12345, tokens 20/10)\n  step 1 · kv_put · ok\n  step 2 · http_get · failed\n"
    );
}

#[test]
fn a_report_without_calls_has_no_lines_for_them() {
    let report = RunReport {
        output: AgentOutput::failed("why".to_string()),
        model: "m".into(),
        duration_ms: 0,
        fuel_used: 0,
        logs: vec![],
    };
    assert_eq!(
        report_text(&report),
        "why\n\n— Error after 0 step(s) in 0 ms via m (fuel 0, tokens 0/0)\n"
    );
}

#[test]
fn stop_reasons_have_their_names() {
    assert_eq!(StopReason::Completed.variant_name(), format!("{:?}", StopReason::Completed));
    assert_eq!(StopReason::StepLimit.variant_name(), format!("{:?}", StopReason::StepLimit));
    assert_eq!(StopReason::Refusal.variant_name(), format!("{:?}", StopReason::Refusal));
    assert_eq!(StopReason::Error.variant_name(), format!("{:?}", StopReason::Error));
}

#[test]
fn a_check_says_what_was_checked() {
    let policy = Policy::default();
    assert_eq!(
        check_text(&policy, false),
        "ok: policy valid, agent module accepted (3 tool(s) enabled)"
    );
    assert_eq!(
        check_text(&policy, true),
        "ok: policy valid, agent module accepted (3 tool(s) enabled, credential not checked)"
    );
}

#[test]
fn the_effective_policy_is_summed_up() {
    let mut policy = Policy::default();
    policy.tools.http.allowed_hosts = vec!["a.test".into()];
    policy.llm.api_key_env = "SOME_KEY".into();
    policy.llm.effort = Effort::Low;
    let summary = policy_summary(&policy);
    assert_eq!(summary.limits.max_steps, 8);
    assert_eq!(summary.model, policy.llm.model);
    assert_eq!(summary.effort, Effort::Low);
    assert_eq!(summary.max_tokens, 8192);
    assert_eq!(summary.api_key_env, "SOME_KEY");
    assert_eq!(summary.enabled, vec!["now", "kv_get", "kv_put"]);
    assert_eq!(summary.http_allowed_hosts, vec!["a.test"]);
}
