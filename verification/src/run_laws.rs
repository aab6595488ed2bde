//! What holds of every module that is run, of what a run may spend, and of what
//! is reported of it.

use vstd::prelude::*;

use crate::abi::{
    unpacked, AgentOutput, AgentOutputView, StopReason, ToolCallRecordView, Usage,
};
use crate::module::{first_foreign, first_missing, provided, required_exports, shape_fault, well_shaped, ShapeErrorView};
use crate::policy::Limits;
use crate::runtime::{
    budget_of, failure_of, granted_steps, outcome, spent, GuestEventView, HandoverError, HandoverView, RunFailureView,
    RunReportView, RuntimeErrorView,
};
use crate::service::{call_line, call_lines, report_lines, summary_line};
use crate::text::{debug_text, decimal, signed};

verus! {

// ---------------------------------------------------------------------------
// Modules
// ---------------------------------------------------------------------------

/// Whether an import is one of the three functions of the host.
pub open spec fn of_the_host(import: (Seq<char>, Seq<char>)) -> bool {
    import.0 == "tds_host"@ && (import.1 == "log"@ || import.1 == "call"@ || import.1
        == "response_read"@)
}

/// Whether a module has the five exports of an agent.
pub open spec fn has_the_exports(exported: Set<Seq<char>>) -> bool {
    &&& exported.contains("memory"@)
    &&& exported.contains("tds_abi_version"@)
    &&& exported.contains("tds_alloc"@)
    &&& exported.contains("tds_dealloc"@)
    &&& exported.contains("tds_run"@)
}

/// A module is accepted exactly if each of its imports is one of the three
/// functions of the host and it has the five exports of an agent, whatever else
/// it exports.
pub proof fn law_modules_are_accepted_by_their_shape(
    imports: Seq<(Seq<char>, Seq<char>)>,
    exported: Set<Seq<char>>,
)
    ensures
        shape_fault(imports, exported) is None <==> has_the_exports(exported) && forall|i: int|
            0 <= i < imports.len() ==> of_the_host(#[trigger] imports[i]),
        well_shaped(imports, exported) <==> shape_fault(imports, exported) is None,
{
    lemma_foreign(imports);
    lemma_exports(exported);
    assert(forall|i: int|
        0 <= i < imports.len() ==> of_the_host(#[trigger] imports[i]) == provided(imports[i]));
    let names = required_exports();
    if has_the_exports(exported) {
        assert forall|i: int| 0 <= i < names.len() implies exported.contains(#[trigger] names[i]) by {
            assert(i == 0 || i == 1 || i == 2 || i == 3 || i == 4);
        }
    }
    if well_shaped(imports, exported) {
        assert(exported.contains(names[0]));
        assert(exported.contains(names[1]));
        assert(exported.contains(names[2]));
        assert(exported.contains(names[3]));
        assert(exported.contains(names[4]));
    }
}

/// The complaint about a module names the first import that is none of the
/// host's; if there is none, the first export that it lacks.
pub proof fn law_the_complaint_names_the_first_fault(
    imports: Seq<(Seq<char>, Seq<char>)>,
    exported: Set<Seq<char>>,
)
    ensures
        match shape_fault(imports, exported) {
            Some(ShapeErrorView::ForeignImport(module, name)) => exists|i: int|
                {
                    &&& 0 <= i < imports.len()
                    &&& #[trigger] imports[i] == (module, name)
                    &&& !of_the_host(imports[i])
                    &&& forall|k: int| 0 <= k < i ==> of_the_host(#[trigger] imports[k])
                },
            Some(ShapeErrorView::MissingExport(name)) => {
                &&& forall|k: int| 0 <= k < imports.len() ==> of_the_host(#[trigger] imports[k])
                &&& !exported.contains(name)
                &&& name == if !exported.contains("memory"@) {
                    "memory"@
                } else if !exported.contains("tds_abi_version"@) {
                    "tds_abi_version"@
                } else if !exported.contains("tds_alloc"@) {
                    "tds_alloc"@
                } else if !exported.contains("tds_dealloc"@) {
                    "tds_dealloc"@
                } else {
                    "tds_run"@
                }
            },
            None => true,
        },
{
    lemma_foreign(imports);
    lemma_exports(exported);
}

proof fn lemma_foreign(imports: Seq<(Seq<char>, Seq<char>)>)
    ensures
        match first_foreign(imports) {
            Some(import) => exists|i: int|
                {
                    &&& 0 <= i < imports.len()
                    &&& #[trigger] imports[i] == import
                    &&& !of_the_host(imports[i])
                    &&& forall|k: int| 0 <= k < i ==> of_the_host(#[trigger] imports[k])
                },
            None => forall|k: int| 0 <= k < imports.len() ==> of_the_host(#[trigger] imports[k]),
        },
    decreases imports.len(),
{
    if imports.len() > 0 {
        let rest = imports.drop_first();
        lemma_foreign(rest);
        if !of_the_host(imports[0]) {
            assert(imports[0] == first_foreign(imports)->Some_0);
        } else {
            match first_foreign(rest) {
                Some(import) => {
                    let i = choose|i: int|
                        {
                            &&& 0 <= i < rest.len()
                            &&& #[trigger] rest[i] == import
                            &&& !of_the_host(rest[i])
                            &&& forall|k: int| 0 <= k < i ==> of_the_host(#[trigger] rest[k])
                        };
                    assert(imports[i + 1] == import);
                    assert forall|k: int| 0 <= k < i + 1 implies of_the_host(
                        #[trigger] imports[k],
                    ) by {
                        if k > 0 {
                            assert(rest[k - 1] == imports[k]);
                        }
                    }
                },
                None => {
                    assert forall|k: int| 0 <= k < imports.len() implies of_the_host(
                        #[trigger] imports[k],
                    ) by {
                        if k > 0 {
                            assert(rest[k - 1] == imports[k]);
                        }
                    }
                },
            }
        }
    }
}

proof fn lemma_exports(exported: Set<Seq<char>>)
    ensures
        first_missing(required_exports(), exported) == if !exported.contains("memory"@) {
            Some("memory"@)
        } else if !exported.contains("tds_abi_version"@) {
            Some("tds_abi_version"@)
        } else if !exported.contains("tds_alloc"@) {
            Some("tds_alloc"@)
        } else if !exported.contains("tds_dealloc"@) {
            Some("tds_dealloc"@)
        } else if !exported.contains("tds_run"@) {
            Some("tds_run"@)
        } else {
            None
        },
{
    reveal_with_fuel(first_missing, 6);
    let names = required_exports();
    let n1 = names.drop_first();
    let n2 = n1.drop_first();
    let n3 = n2.drop_first();
    let n4 = n3.drop_first();
    assert(n1[0] == "tds_abi_version"@);
    assert(n2[0] == "tds_alloc"@);
    assert(n3[0] == "tds_dealloc"@);
    assert(n4[0] == "tds_run"@);
}

/// The complaints about a module in words.
pub proof fn law_complaints_about_modules_in_words(
    module: Seq<char>,
    name: Seq<char>,
    error: Seq<char>,
    version: i32,
)
    ensures
        ShapeErrorView::ForeignImport(module, name).message() == "agent module imports "@ + module
            + "::"@ + name + ", which this host does not provide; the agent may only import "@
            + "tds_host"@ + "::{log, call, response_read}"@,
        ShapeErrorView::MissingExport(name).message() == "agent module does not export "@
            + debug_text(name),
        RuntimeErrorView::Compile(error).message() == "compiling the agent module: "@ + error,
        RuntimeErrorView::AbiVersion(version).message() == "agent module speaks ABI version "@
            + signed(version as int) + ", host speaks "@ + signed(1),
        RuntimeErrorView::Shape(ShapeErrorView::MissingExport(name)).message()
            == ShapeErrorView::MissingExport(name).message(),
{
}

// ---------------------------------------------------------------------------
// Budgets
// ---------------------------------------------------------------------------

/// A run may spend what the policy says, in one instance with one memory and one
/// table; its time is counted in ticks of ten milliseconds, whole ones, and at
/// least one.
pub proof fn law_a_run_spends_what_the_policy_says(limits: Limits)
    ensures
        ({
            let budget = budget_of(limits);
            &&& budget.fuel == limits.fuel
            &&& budget.memory_bytes == limits.memory_bytes
            &&& budget.table_elements == limits.table_elements
            &&& budget.instances == 1 && budget.memories == 1 && budget.tables == 1
            &&& limits.wall_clock_ms >= 10 ==> budget.epoch_ticks * 10 <= limits.wall_clock_ms < (
            budget.epoch_ticks + 1) * 10
            &&& limits.wall_clock_ms < 10 ==> budget.epoch_ticks == 1
        }),
{
}

/// A run is granted the smaller of what it asks for and what the policy allows.
pub proof fn law_a_run_is_granted_the_smaller_number(asked: u32, allowed: u32)
    ensures
        granted_steps(asked, allowed) == asked || granted_steps(asked, allowed) == allowed,
        granted_steps(asked, allowed) <= asked,
        granted_steps(asked, allowed) <= allowed,
{
}

/// What a run has used and what is left of its fuel make up its fuel; if nothing
/// is known to be left, it has used all of it.
pub proof fn law_fuel_is_used_or_left(fuel: u64, left: u64)
    ensures
        left <= fuel ==> spent(fuel, Some(left)) + left == fuel,
        left > fuel ==> spent(fuel, Some(left)) == 0,
        spent(fuel, None) == fuel,
{
}

// ---------------------------------------------------------------------------
// Outcomes
// ---------------------------------------------------------------------------

/// What an agent puts out is reported as it is; what stopped it is reported as
/// the answer of a failed run.
pub proof fn law_outcomes_are_reported(result: Result<AgentOutput, anyhow::Error>)
    ensures
        match result {
            Ok(output) => {
                let seen = outcome(result);
                &&& seen.answer == output.answer@
                &&& seen.steps == output.steps
                &&& seen.stop == output.stop
                &&& seen.usage == output.usage
                &&& seen.tool_calls.len() == output.tool_calls@.len()
                &&& forall|i: int|
                    0 <= i < seen.tool_calls.len() ==> #[trigger] seen.tool_calls[i]
                        == output.tool_calls@[i]@
            },
            Err(error) => outcome(result) == (AgentOutputView {
                answer: failure_of(error).reason(),
                steps: 0,
                stop: StopReason::Error,
                tool_calls: Seq::empty(),
                usage: Usage { input_tokens: 0, output_tokens: 0 },
            }),
        },
{
}

/// What stopped a run in words: which budget ran out, a panic, another trap, or
/// any other failure.
pub proof fn law_failures_say_what_stopped_the_run(text: Seq<char>)
    ensures
        RunFailureView::OutOfFuel.reason()
            == "The agent was stopped: it exhausted its compute budget (limits.fuel)."@,
        RunFailureView::Interrupted.reason()
            == "The agent was stopped: it exceeded its wall-clock budget (limits.wall_clock_ms)."@,
        RunFailureView::Unreachable.reason()
            == "The agent panicked inside the sandbox and was stopped."@,
        RunFailureView::Trap(text).reason() == "The agent trapped and was stopped: "@ + text + "."@,
        RunFailureView::Other(text).reason() == "The agent run failed: "@ + text,
{
}

/// The exchange with a guest, step by step: the input is written where the guest
/// has room for it, the agent is run on it, its memory is given back, the output
/// is read from where the guest says, and its memory is given back too. Without
/// room, or with an empty output, it ends there.
pub proof fn law_an_exchange_goes_step_by_step(
    input: Seq<u8>,
    ptr: u32,
    len: u32,
    returned: u64,
    output: Seq<u8>,
)
    ensures
        (HandoverView::Allocate { input }).next(GuestEventView::Allocated(ptr)) == if ptr == 0 {
            HandoverView::Failed(HandoverError::NoMemory(input.len() as u32))
        } else {
            HandoverView::Write { ptr, input }
        },
        (HandoverView::Write { ptr, input }).next(GuestEventView::Done) == (HandoverView::Run {
            ptr,
            len: input.len() as u32,
        }),
        (HandoverView::Run { ptr, len }).next(GuestEventView::Returned(returned)) == (
        HandoverView::FreeInput { ptr, len, returned }),
        (HandoverView::FreeInput { ptr, len, returned }).next(GuestEventView::Done) == if unpacked(
            returned,
        ).0 == 0 || unpacked(returned).1 == 0 {
            HandoverView::Failed(HandoverError::EmptyResult)
        } else {
            HandoverView::Read { ptr: unpacked(returned).0, len: unpacked(returned).1 }
        },
        (HandoverView::Read { ptr, len }).next(GuestEventView::Bytes(output)) == (
        HandoverView::FreeOutput { ptr, len, output }),
        (HandoverView::FreeOutput { ptr, len, output }).next(GuestEventView::Done) == (
        HandoverView::Done { output }),
        HandoverError::NoMemory(len).message() == "agent module could not allocate "@ + decimal(
            len as nat,
        ) + " bytes for its input"@,
        HandoverError::EmptyResult.message() == "agent returned an empty result"@,
{
}

/// An exchange that is over stays over.
pub proof fn law_a_finished_exchange_stays(event: GuestEventView, output: Seq<u8>, error: HandoverError)
    ensures
        (HandoverView::Done { output }).next(event) == (HandoverView::Done { output }),
        HandoverView::Failed(error).next(event) == HandoverView::Failed(error),
{
}

// ---------------------------------------------------------------------------
// The report in words
// ---------------------------------------------------------------------------

/// A report in words is the whole answer, an empty line, a line on how the run
/// ended, and a line on each tool call, in order.
pub proof fn law_a_report_tells_of_the_answer_and_every_call(
    report: RunReportView,
    calls: Seq<ToolCallRecordView>,
    call: ToolCallRecordView,
)
    ensures
        report_lines(report) == report.output.answer + "\n\n"@ + summary_line(report) + "\n"@
            + call_lines(report.output.tool_calls),
        call_lines(Seq::empty()) == Seq::<char>::empty(),
        call_lines(calls.push(call)) == call_lines(calls) + call_line(call) + "\n"@,
{
    assert(calls.push(call).drop_last() =~= calls);
}

/// The line on how a run ended: why, after how many steps, in what time, by which
/// model, and for how much fuel and how many tokens. The line on a tool call: at
/// which step, which tool, and whether it succeeded.
pub proof fn law_the_lines_of_a_report(report: RunReportView, call: ToolCallRecordView)
    ensures
        summary_line(report) == "— "@ + (match report.output.stop {
            StopReason::Completed => "Completed"@,
            StopReason::StepLimit => "StepLimit"@,
            StopReason::Refusal => "Refusal"@,
            StopReason::Error => "Error"@,
        }) + " after "@ + decimal(report.output.steps as nat) + " step(s) in "@ + decimal(
            report.duration_ms as nat,
        ) + " ms via "@ + report.model + " (fuel "@ + decimal(report.fuel_used as nat)
            + ", tokens "@ + decimal(report.output.usage.input_tokens as nat) + "/"@ + decimal(
            report.output.usage.output_tokens as nat,
        ) + ")"@,
        call.ok ==> call_line(call) == "  step "@ + decimal(call.step as nat) + " · "@ + call.name
            + " · "@ + "ok"@,
        !call.ok ==> call_line(call) == "  step "@ + decimal(call.step as nat) + " · "@ + call.name
            + " · "@ + "failed"@,
{
}

} // verus!
