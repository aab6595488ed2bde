//! What holds of every step of the agent, in terms of what it is given.

use vstd::prelude::*;

use crate::abi::{
    block_texts, AgentOutputView, CapErrorView, ContentView, LlmResponseView, LogLevel, MessageView, Role, StopReason,
    ToolCallRecordView, ToolSpecView, Usage,
};
use crate::agent::{clipped, opened, tool_uses, AgentStateView, BatchView, SessionView, SYSTEM_PROMPT};
use crate::agent_run::said;
use crate::text::{decimal, join, trim, white};
use crate::text_laws::{law_blank_is_white_space_alone, lemma_places_push, places};

verus! {

// ---------------------------------------------------------------------------
// The first step
// ---------------------------------------------------------------------------

/// A run opens with the task, preceded by the context if that holds anything but
/// white space, with the tools that the host listed, or none if it refused, and
/// with nothing on record; it may take as many turns as it was given.
pub proof fn law_a_run_opens_with_what_it_is_given(
    task: Seq<char>,
    context: Option<Seq<char>>,
    max_steps: u32,
    listed: Result<Seq<ToolSpecView>, CapErrorView>,
)
    requires
        max_steps > 0,
    ensures
        opened(task, context, max_steps, listed).state matches AgentStateView::Thinking(session) && {
            &&& session.step == 1
            &&& session.max_steps == max_steps
            &&& session.record.len() == 0
            &&& session.usage == (Usage { input_tokens: 0, output_tokens: 0 })
            &&& listed matches Ok(tools) ==> session.tools == tools
            &&& listed is Err ==> session.tools.len() == 0
            &&& session.messages.len() >= 1
            &&& session.messages.last() == (MessageView {
                role: Role::User,
                content: seq![ContentView::Text { text: task }],
            })
            &&& if context is Some && exists|i: int|
                0 <= i < context->Some_0.len() && !white(#[trigger] context->Some_0[i]) {
                &&& session.messages.len() == 2
                &&& session.messages[0] == (MessageView {
                    role: Role::User,
                    content: seq![
                        ContentView::Text { text: "Background context:\n"@ + context->Some_0 },
                    ],
                })
            } else {
                session.messages.len() == 1
            }
        },
{
    if let Some(context) = context {
        law_blank_is_white_space_alone(context);
    }
}

/// A run that may take no turn ends at once, with nothing on record.
pub proof fn law_a_run_without_turns_ends_at_once(
    task: Seq<char>,
    context: Option<Seq<char>>,
    listed: Result<Seq<ToolSpecView>, CapErrorView>,
)
    ensures
        opened(task, context, 0, listed).state matches AgentStateView::Finished(output) && {
            &&& output.steps == 0
            &&& output.stop == StopReason::StepLimit
            &&& output.tool_calls.len() == 0
            &&& output.usage == (Usage { input_tokens: 0, output_tokens: 0 })
        },
{
}

/// What a run logs when it opens: that there are no tools and why, if the host
/// refused to list them; and how many tools it starts with.
pub proof fn law_a_run_logs_its_tools(
    task: Seq<char>,
    context: Option<Seq<char>>,
    max_steps: u32,
    listed: Result<Seq<ToolSpecView>, CapErrorView>,
)
    ensures
        ({
            let logs = opened(task, context, max_steps, listed).logs;
            let at: int = if listed is Ok {
                0
            } else {
                1
            };
            &&& logs.len() == at + 1 + (if max_steps == 0 {
                1int
            } else {
                0
            })
            &&& listed matches Err(error) ==> logs[0] == (
                LogLevel::Warn,
                "no tools available: "@ + (error.kind + ": "@ + error.message),
            )
            &&& listed matches Ok(tools) ==> logs[at] == (
                LogLevel::Info,
                "agent starting with "@ + decimal(tools.len()) + " tool(s)"@,
            )
            &&& listed is Err ==> logs[at] == (
                LogLevel::Info,
                "agent starting with "@ + decimal(0) + " tool(s)"@,
            )
            &&& max_steps == 0 ==> logs[at + 1] == (LogLevel::Warn, "agent hit its step limit"@)
        }),
{
}

/// Each request for a model turn holds the whole conversation and every tool.
pub proof fn law_a_request_holds_the_whole_conversation(session: SessionView)
    ensures
        session.request().messages == session.messages,
        session.request().tools == session.tools,
        session.request().system == Some(SYSTEM_PROMPT@),
{
}

// ---------------------------------------------------------------------------
// Model turns
// ---------------------------------------------------------------------------

/// Whether `at` lists the places of all tool-use blocks, each once, in order.
pub open spec fn tool_use_places(content: Seq<ContentView>, at: Seq<int>) -> bool {
    places(content, |block: ContentView| block is ToolUse, at)
}

/// Whether `at` lists the places of all text blocks, each once, in order.
pub open spec fn text_places(content: Seq<ContentView>, at: Seq<int>) -> bool {
    places(content, |block: ContentView| block is Text, at)
}

/// The tool calls of a turn are its tool-use blocks: each of them, wherever it
/// stands among other blocks, once and in order, with its own id, name and
/// input.
pub proof fn law_every_tool_use_is_a_call(content: Seq<ContentView>)
    ensures
        exists|at: Seq<int>|
            {
                &&& #[trigger] tool_use_places(content, at)
                &&& tool_uses(content).len() == at.len()
                &&& forall|k: int|
                    0 <= k < at.len() ==> content[#[trigger] at[k]] == (ContentView::ToolUse {
                        id: tool_uses(content)[k].id,
                        name: tool_uses(content)[k].name,
                        input: tool_uses(content)[k].input,
                    })
            },
    decreases content.len(),
{
    let wanted = |block: ContentView| block is ToolUse;
    if content.len() == 0 {
        let at: Seq<int> = seq![];
        assert(tool_use_places(content, at));
    } else {
        let rest = content.drop_last();
        law_every_tool_use_is_a_call(rest);
        let at = choose|at: Seq<int>|
            {
                &&& #[trigger] tool_use_places(rest, at)
                &&& tool_uses(rest).len() == at.len()
                &&& forall|k: int|
                    0 <= k < at.len() ==> rest[#[trigger] at[k]] == (ContentView::ToolUse {
                        id: tool_uses(rest)[k].id,
                        name: tool_uses(rest)[k].name,
                        input: tool_uses(rest)[k].input,
                    })
            };
        lemma_places_push(content, wanted, at);
        let all = if content.last() is ToolUse {
            at.push(content.len() - 1)
        } else {
            at
        };
        assert(tool_use_places(content, all));
        assert forall|k: int| 0 <= k < all.len() implies content[#[trigger] all[k]] == (
        ContentView::ToolUse {
            id: tool_uses(content)[k].id,
            name: tool_uses(content)[k].name,
            input: tool_uses(content)[k].input,
        }) by {
            if k < at.len() {
                assert(0 <= at[k] < rest.len());
                assert(rest[at[k]] == content[all[k]]);
            }
        }
    }
}

/// A turn that holds a tool-use block anywhere, and is no refusal, leads to
/// tool calls: those blocks, each once and in order. A turn that holds none ends
/// the run.
pub proof fn law_every_tool_use_is_acted_on(session: SessionView, response: LlmResponseView)
    requires
        response.stop_reason != "refusal"@,
    ensures
        exists|at: Seq<int>|
            {
                &&& #[trigger] tool_use_places(response.content, at)
                &&& match session.after_model(Ok(response)).state {
                    AgentStateView::Acting(_, batch) => {
                        &&& batch.calls.len() == at.len() > 0
                        &&& batch.results.len() == 0
                        &&& forall|k: int|
                            0 <= k < at.len() ==> response.content[#[trigger] at[k]] == (
                            ContentView::ToolUse {
                                id: batch.calls[k].id,
                                name: batch.calls[k].name,
                                input: batch.calls[k].input,
                            })
                    },
                    AgentStateView::Finished(output) => at.len() == 0 && output.stop
                        == StopReason::Completed,
                    AgentStateView::Thinking(_) => false,
                }
            },
{
    law_every_tool_use_is_a_call(response.content);
}

/// The same in other words: the run goes on exactly when some block is a
/// tool-use block.
pub proof fn law_a_run_goes_on_while_tools_are_asked_for(
    session: SessionView,
    response: LlmResponseView,
)
    ensures
        session.after_model(Ok(response)).state is Acting <==> response.stop_reason != "refusal"@
            && exists|i: int| 0 <= i < response.content.len() && #[trigger] response.content[i] is ToolUse,
{
    if response.stop_reason != "refusal"@ {
        law_every_tool_use_is_acted_on(session, response);
        let at = choose|at: Seq<int>|
            {
                &&& #[trigger] tool_use_places(response.content, at)
                &&& match session.after_model(Ok(response)).state {
                    AgentStateView::Acting(_, batch) => {
                        &&& batch.calls.len() == at.len() > 0
                        &&& batch.results.len() == 0
                        &&& forall|k: int|
                            0 <= k < at.len() ==> response.content[#[trigger] at[k]] == (
                            ContentView::ToolUse {
                                id: batch.calls[k].id,
                                name: batch.calls[k].name,
                                input: batch.calls[k].input,
                            })
                    },
                    AgentStateView::Finished(output) => at.len() == 0 && output.stop
                        == StopReason::Completed,
                    AgentStateView::Thinking(_) => false,
                }
            };
        if at.len() > 0 {
            assert(response.content[at[0]] is ToolUse);
        }
    }
}

/// A turn that asks for tools is added to the conversation as it is, its tokens
/// to those spent, and its first call is announced; all else stays.
pub proof fn law_a_turn_is_added_as_it_is(session: SessionView, response: LlmResponseView)
    requires
        session.usage.input_tokens + response.usage.input_tokens <= u64::MAX,
        session.usage.output_tokens + response.usage.output_tokens <= u64::MAX,
    ensures
        session.after_model(Ok(response)).state matches AgentStateView::Acting(later, batch) ==> {
            &&& later.messages == session.messages.push(
                MessageView { role: Role::Assistant, content: response.content },
            )
            &&& later.usage.input_tokens == session.usage.input_tokens + response.usage.input_tokens
            &&& later.usage.output_tokens == session.usage.output_tokens
                + response.usage.output_tokens
            &&& later.tools == session.tools
            &&& later.record == session.record
            &&& later.step == session.step
            &&& later.max_steps == session.max_steps
            &&& session.after_model(Ok(response)).logs == seq![
                (
                    LogLevel::Info,
                    "step "@ + decimal(session.step as nat) + ": calling tool "@
                        + batch.calls[0].name,
                ),
            ]
        },
{
}

/// What the text blocks hold, given their places.
pub open spec fn texts_at(content: Seq<ContentView>, at: Seq<int>) -> Seq<Seq<char>> {
    Seq::new(at.len(), |k: int| content[at[k]]->Text_text)
}

/// The texts of a turn are those of its text blocks: each of them, wherever it
/// stands among other blocks, once and in order.
pub proof fn law_every_text_block_is_read(content: Seq<ContentView>)
    ensures
        exists|at: Seq<int>|
            {
                &&& #[trigger] text_places(content, at)
                &&& block_texts(content) == texts_at(content, at)
            },
    decreases content.len(),
{
    let wanted = |block: ContentView| block is Text;
    if content.len() == 0 {
        let at: Seq<int> = seq![];
        assert(text_places(content, at));
        assert(block_texts(content) =~= texts_at(content, at));
    } else {
        let rest = content.drop_last();
        law_every_text_block_is_read(rest);
        let at = choose|at: Seq<int>|
            {
                &&& #[trigger] text_places(rest, at)
                &&& block_texts(rest) == texts_at(rest, at)
            };
        lemma_places_push(content, wanted, at);
        let all = if content.last() is Text {
            at.push(content.len() - 1)
        } else {
            at
        };
        assert(text_places(content, all));
        assert forall|k: int| 0 <= k < at.len() implies content[#[trigger] at[k]] == rest[at[k]] by {
            assert(0 <= at[k] < rest.len());
        }
        assert(block_texts(content) =~= texts_at(content, all));
    }
}

/// A run that a model turn ends reports that turn: the texts of all its text
/// blocks, one to a line, as the answer; the step; a refusal as such; what was on
/// record; and the tokens of that turn with those before it.
pub proof fn law_an_answer_is_every_text_of_the_turn(session: SessionView, response: LlmResponseView)
    requires
        session.usage.input_tokens + response.usage.input_tokens <= u64::MAX,
        session.usage.output_tokens + response.usage.output_tokens <= u64::MAX,
    ensures
        session.after_model(Ok(response)).state matches AgentStateView::Finished(output) ==> {
            &&& exists|at: Seq<int>|
                {
                    &&& #[trigger] text_places(response.content, at)
                    &&& output.answer == trim(join(texts_at(response.content, at), "\n"@))
                }
            &&& output.steps == session.step
            &&& output.stop == if response.stop_reason == "refusal"@ {
                StopReason::Refusal
            } else {
                StopReason::Completed
            }
            &&& output.tool_calls == session.record
            &&& output.usage.input_tokens == session.usage.input_tokens
                + response.usage.input_tokens
            &&& output.usage.output_tokens == session.usage.output_tokens
                + response.usage.output_tokens
            &&& session.after_model(Ok(response)).logs.len() == 0
        },
{
    law_every_text_block_is_read(response.content);
}

/// A model call that fails ends the run, with the failure as the answer, the
/// turns before it as the steps, and what was on record and spent so far.
pub proof fn law_a_failed_model_call_is_reported(session: SessionView, error: CapErrorView)
    requires
        session.wf(),
    ensures
        ({
            let line = error.kind + ": "@ + error.message;
            &&& session.after_model(Err(error)).state == AgentStateView::Finished(
                AgentOutputView {
                    answer: "The model call failed at step "@ + decimal(session.step as nat) + ": "@
                        + line,
                    steps: (session.step - 1) as u32,
                    stop: StopReason::Error,
                    tool_calls: session.record,
                    usage: session.usage,
                },
            )
            &&& session.after_model(Err(error)).logs == seq![
                (
                    LogLevel::Error,
                    "model turn "@ + decimal(session.step as nat) + " failed: "@ + line,
                ),
            ]
        }),
{
}

// ---------------------------------------------------------------------------
// Tool calls
// ---------------------------------------------------------------------------

/// The call to make next is the first one without a result.
pub proof fn law_calls_are_made_in_order(batch: BatchView)
    requires
        batch.wf(),
    ensures
        batch.current() == batch.calls[batch.results.len() as int],
{
}

/// A tool's reply goes on record once, at the end, with the step, the tool, its
/// input, whether it succeeded, and what it said, cut after 512 bytes.
pub proof fn law_a_tool_call_goes_on_record(
    session: SessionView,
    batch: BatchView,
    reply: Result<Seq<char>, CapErrorView>,
)
    requires
        session.wf(),
        batch.wf(),
    ensures
        ({
            let record = match session.after_tool(batch, reply).state {
                AgentStateView::Acting(later, _) => later.record,
                AgentStateView::Thinking(later) => later.record,
                AgentStateView::Finished(output) => output.tool_calls,
            };
            record == session.record.push(
                ToolCallRecordView {
                    step: session.step,
                    name: batch.calls[batch.results.len() as int].name,
                    input: batch.calls[batch.results.len() as int].input,
                    ok: reply is Ok,
                    result: clipped(said(reply), 512),
                },
            )
        }),
{
}

/// While a call of the turn is left, it is made next, and announced; the results
/// so far are kept, and the new one follows them, whole and under the call's id.
pub proof fn law_every_call_of_a_turn_is_made(
    session: SessionView,
    batch: BatchView,
    reply: Result<Seq<char>, CapErrorView>,
)
    requires
        session.wf(),
        batch.wf(),
        batch.results.len() + 1 < batch.calls.len(),
    ensures
        session.after_tool(batch, reply).state matches AgentStateView::Acting(later, further) && {
            &&& further.calls == batch.calls
            &&& further.results == batch.results.push(
                ContentView::ToolResult {
                    tool_use_id: batch.calls[batch.results.len() as int].id,
                    content: said(reply),
                    is_error: reply is Err,
                },
            )
            &&& later.messages == session.messages
            &&& later.tools == session.tools
            &&& later.usage == session.usage
            &&& later.step == session.step
            &&& later.max_steps == session.max_steps
            &&& session.after_tool(batch, reply).logs == seq![
                (
                    LogLevel::Info,
                    "step "@ + decimal(session.step as nat) + ": calling tool "@
                        + batch.calls[batch.results.len() as int + 1].name,
                ),
            ]
        },
{
}

/// After the last call of a turn the model is asked again, if a turn is left: it
/// reads all results of the turn in one message, behind all that was said
/// before. If none is left, the run ends at its limit.
pub proof fn law_the_model_is_asked_again(
    session: SessionView,
    batch: BatchView,
    reply: Result<Seq<char>, CapErrorView>,
)
    requires
        session.wf(),
        batch.wf(),
        batch.results.len() + 1 == batch.calls.len(),
    ensures
        session.step < session.max_steps ==> {
            &&& session.after_tool(batch, reply).state matches AgentStateView::Thinking(later)
            &&& later.step == session.step + 1
            &&& later.max_steps == session.max_steps
            &&& later.tools == session.tools
            &&& later.usage == session.usage
            &&& later.messages == session.messages.push(
                MessageView {
                    role: Role::User,
                    content: batch.results.push(
                        ContentView::ToolResult {
                            tool_use_id: batch.calls[batch.results.len() as int].id,
                            content: said(reply),
                            is_error: reply is Err,
                        },
                    ),
                },
            )
            &&& session.after_tool(batch, reply).logs.len() == 0
        },
        session.step == session.max_steps ==> {
            &&& session.after_tool(batch, reply).state matches AgentStateView::Finished(output)
            &&& output.stop == StopReason::StepLimit
            &&& output.steps == session.max_steps
            &&& output.usage == session.usage
            &&& output.answer
                == "Stopped after reaching the step limit without producing a final answer."@
            &&& session.after_tool(batch, reply).logs == seq![
                (LogLevel::Warn, "agent hit its step limit"@),
            ]
        },
{
}

} // verus!
