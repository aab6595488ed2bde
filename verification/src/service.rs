//! What the program tells its users: on the terminal and over HTTP.

use vstd::prelude::*;
use vstd::string::*;

use crate::abi::{AgentInput, StopReason, ToolCallRecordView};
use crate::policy::{Effort, Limits, Policy, Provider, Thinking};
use crate::runtime::{RunReport, RunReportView};
use crate::text::{decimal, is_blank, push_decimal, texts, trim};

verus! {

/// The model turns that a run asks for unless its caller says otherwise.
pub const DEFAULT_STEPS: u32 = 4;

pub fn default_steps() -> (steps: u32)
    ensures
        steps == DEFAULT_STEPS,
{
    DEFAULT_STEPS
}

/// A request to run a task.
#[derive(Debug)]
pub struct RunRequest {
    pub task: String,
    pub context: Option<String>,
    pub max_steps: u32,
}

/// Accepts a request over HTTP, unless its task is blank.
pub fn accept_run(request: RunRequest) -> (input: Result<AgentInput, String>)
    ensures
        input is Ok <==> trim(request.task@).len() > 0,
        match input {
            Ok(input) => {
                &&& input.task == request.task
                &&& input.context == request.context
                &&& input.max_steps == request.max_steps
            },
            Err(error) => error@ == "task must not be empty"@,
        },
{
    if is_blank(request.task.as_str()) {
        return Err("task must not be empty".to_string());
    }
    Ok(AgentInput { task: request.task, context: request.context, max_steps: request.max_steps })
}

// ---------------------------------------------------------------------------
// The report in words
// ---------------------------------------------------------------------------

impl StopReason {
    /// The variant's own name.
    pub open spec fn label(self) -> Seq<char> {
        match self {
            StopReason::Completed => "Completed"@,
            StopReason::StepLimit => "StepLimit"@,
            StopReason::Refusal => "Refusal"@,
            StopReason::Error => "Error"@,
        }
    }

    /// The variant's own name.
    pub fn variant_name(self) -> (name: &'static str)
        ensures
            name@ == self.label(),
    {
        match self {
            StopReason::Completed => "Completed",
            StopReason::StepLimit => "StepLimit",
            StopReason::Refusal => "Refusal",
            StopReason::Error => "Error",
        }
    }
}

/// The line on how a run ended.
pub open spec fn summary_line(report: RunReportView) -> Seq<char> {
    "— "@ + report.output.stop.label() + " after "@ + decimal(report.output.steps as nat)
        + " step(s) in "@ + decimal(report.duration_ms as nat) + " ms via "@ + report.model
        + " (fuel "@ + decimal(report.fuel_used as nat) + ", tokens "@ + decimal(
        report.output.usage.input_tokens as nat,
    ) + "/"@ + decimal(report.output.usage.output_tokens as nat) + ")"@
}

/// The line on one tool call.
pub open spec fn call_line(call: ToolCallRecordView) -> Seq<char> {
    "  step "@ + decimal(call.step as nat) + " · "@ + call.name + " · "@ + (if call.ok {
        "ok"@
    } else {
        "failed"@
    })
}

/// The lines on some tool calls, each with its line feed.
pub open spec fn call_lines(calls: Seq<ToolCallRecordView>) -> Seq<char>
    decreases calls.len(),
{
    if calls.len() == 0 {
        Seq::empty()
    } else {
        call_lines(calls.drop_last()) + call_line(calls.last()) + "\n"@
    }
}

/// The report for a reader: the answer, an empty line, how the run ended, and
/// the tool calls.
pub open spec fn report_lines(report: RunReportView) -> Seq<char> {
    report.output.answer + "\n\n"@ + summary_line(report) + "\n"@ + call_lines(
        report.output.tool_calls,
    )
}

/// The report for a reader.
pub fn report_text(report: &RunReport) -> (text: String)
    ensures
        text@ == report_lines(report@),
{
    let output = &report.output;
    let mut line = "— ".to_string();
    line.append(output.stop.variant_name());
    line.append(" after ");
    push_decimal(&mut line, output.steps as u128);
    line.append(" step(s) in ");
    push_decimal(&mut line, report.duration_ms);
    line.append(" ms via ");
    line.append(report.model.as_str());
    line.append(" (fuel ");
    push_decimal(&mut line, report.fuel_used as u128);
    line.append(", tokens ");
    push_decimal(&mut line, output.usage.input_tokens as u128);
    line.append("/");
    push_decimal(&mut line, output.usage.output_tokens as u128);
    line.append(")");
    let mut text = output.answer.clone();
    text.append("\n\n");
    text.append(line.as_str());
    text.append("\n");
    let ghost head = text@;
    let ghost calls = report@.output.tool_calls;
    let mut i: usize = 0;
    proof {
        assert(head + call_lines(calls.take(0)) =~= head);
    }
    while i < output.tool_calls.len()
        invariant
            i <= output.tool_calls.len(),
            output == &report.output,
            calls == report@.output.tool_calls,
            text@ == head + call_lines(calls.take(i as int)),
        decreases output.tool_calls.len() - i,
    {
        let call = &output.tool_calls[i];
        proof {
            assert(calls[i as int] == call@);
            assert(calls.take(i + 1).drop_last() =~= calls.take(i as int));
        }
        let mut line = "  step ".to_string();
        push_decimal(&mut line, call.step as u128);
        line.append(" · ");
        line.append(call.name.as_str());
        line.append(" · ");
        line.append(
            if call.ok {
                "ok"
            } else {
                "failed"
            },
        );
        text.append(line.as_str());
        text.append("\n");
        proof {
            assert(text@ =~= head + call_lines(calls.take(i + 1)));
        }
        i = i + 1;
    }
    proof {
        assert(calls.take(calls.len() as int) =~= calls);
    }
    text
}

/// What a successful check of a policy and a module is answered.
pub fn check_text(policy: &Policy, offline: bool) -> (text: String)
    ensures
        text@ == "ok: policy valid, agent module accepted ("@ + decimal(
            policy.tools.enabled@.len(),
        ) + " tool(s) enabled"@ + (if offline {
            ", credential not checked"@
        } else {
            ""@
        }) + ")"@,
{
    let mut text = "ok: policy valid, agent module accepted (".to_string();
    push_decimal(&mut text, policy.tools.enabled.len() as u128);
    text.append(" tool(s) enabled");
    text.append(
        if offline {
            ", credential not checked"
        } else {
            ""
        },
    );
    text.append(")");
    text
}

// ---------------------------------------------------------------------------
// The effective policy
// ---------------------------------------------------------------------------

/// The effective policy, so an operator can confirm what the agent can reach.
/// Only the *name* of the credential variable appears; the credential does not.
#[derive(Debug)]
pub struct PolicySummary {
    pub limits: Limits,
    pub provider: Provider,
    pub model: String,
    pub effort: Effort,
    pub thinking: Thinking,
    pub max_tokens: u32,
    pub api_key_env: String,
    pub enabled: Vec<String>,
    pub http_allowed_hosts: Vec<String>,
}

/// A copy of some texts.
fn clone_texts(strings: &Vec<String>) -> (copy: Vec<String>)
    ensures
        texts(copy@) == texts(strings@),
{
    let mut copy: Vec<String> = Vec::new();
    let mut i: usize = 0;
    while i < strings.len()
        invariant
            i <= strings.len(),
            texts(copy@) =~= texts(strings@).take(i as int),
        decreases strings.len() - i,
    {
        let ghost before = copy@;
        let one = strings[i].clone();
        copy.push(one);
        proof {
            assert(texts(copy@) =~= texts(before).push(one@));
        }
        i = i + 1;
    }
    copy
}

/// The effective policy.
pub fn policy_summary(policy: &Policy) -> (summary: PolicySummary)
    ensures
        summary.limits == policy.limits,
        summary.provider == policy.llm.provider,
        summary.model@ == policy.llm.model@,
        summary.effort == policy.llm.effort,
        summary.thinking == policy.llm.thinking,
        summary.max_tokens == policy.llm.max_tokens,
        summary.api_key_env@ == policy.llm.api_key_env@,
        texts(summary.enabled@) == texts(policy.tools.enabled@),
        texts(summary.http_allowed_hosts@) == texts(policy.tools.http.allowed_hosts@),
{
    PolicySummary {
        limits: Limits {
            fuel: policy.limits.fuel,
            wall_clock_ms: policy.limits.wall_clock_ms,
            memory_bytes: policy.limits.memory_bytes,
            table_elements: policy.limits.table_elements,
            max_steps: policy.limits.max_steps,
            max_request_bytes: policy.limits.max_request_bytes,
        },
        provider: policy.llm.provider,
        model: policy.llm.model.clone(),
        effort: policy.llm.effort,
        thinking: policy.llm.thinking,
        max_tokens: policy.llm.max_tokens,
        api_key_env: policy.llm.api_key_env.clone(),
        enabled: clone_texts(&policy.tools.enabled),
        http_allowed_hosts: clone_texts(&policy.tools.http.allowed_hosts),
    }
}

} // verus!
