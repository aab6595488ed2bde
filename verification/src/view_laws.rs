//! What the models of the values hold: all that the values hold.

use vstd::prelude::*;

use crate::abi::{
    blocks, message_views, records, tool_views, AgentOutput, CapError, Content, ContentView, KnownContent, LlmRequest,
    LlmResponse, Message, ToolCallRecord, ToolSpec,
};
use crate::agent::{logged, tool_calls, Advance, AgentLog, AgentState, AgentStateView, ToolCall};
use crate::host::{log_views, LogLine};
use crate::json::json_tree;
use crate::text::{opt_text, texts};
use crate::tools::{HttpFetch, ParsedUrl};

verus! {

/// The model of a block keeps its type and each of its parts.
pub proof fn law_blocks_are_seen_whole(block: Content)
    ensures
        match block {
            Content::Known(KnownContent::Text { text }) => block@ == (ContentView::Text {
                text: text@,
            }),
            Content::Known(KnownContent::Thinking { thinking, signature: None }) => block@ == (
            ContentView::Thinking { thinking: thinking@, signature: None }),
            Content::Known(KnownContent::Thinking { thinking, signature: Some(signature) }) => block@
                == (ContentView::Thinking {
                thinking: thinking@,
                signature: Some(signature@),
            }),
            Content::Known(KnownContent::RedactedThinking { data }) => block@ == (
            ContentView::RedactedThinking { data: data@ }),
            Content::Known(KnownContent::ToolUse { id, name, input }) => block@ == (
            ContentView::ToolUse { id: id@, name: name@, input: json_tree(input) }),
            Content::Known(KnownContent::ToolResult { tool_use_id, content, is_error }) => block@
                == (ContentView::ToolResult {
                tool_use_id: tool_use_id@,
                content: content@,
                is_error,
            }),
            Content::Raw(value) => block@ == (ContentView::Raw { value: json_tree(value) }),
        },
{
}

/// The model of a list has one item for each item of the list, in order.
pub proof fn law_lists_are_seen_item_by_item(
    content: Seq<Content>,
    messages: Seq<Message>,
    tools: Seq<ToolSpec>,
    calls: Seq<ToolCallRecord>,
    strings: Seq<String>,
    lines: Seq<LogLine>,
    i: int,
)
    ensures
        blocks(content).len() == content.len(),
        0 <= i < content.len() ==> blocks(content)[i] == content[i]@,
        message_views(messages).len() == messages.len(),
        0 <= i < messages.len() ==> message_views(messages)[i] == messages[i]@,
        tool_views(tools).len() == tools.len(),
        0 <= i < tools.len() ==> tool_views(tools)[i] == tools[i]@,
        records(calls).len() == calls.len(),
        0 <= i < calls.len() ==> records(calls)[i] == calls[i]@,
        texts(strings).len() == strings.len(),
        0 <= i < strings.len() ==> texts(strings)[i] == strings[i]@,
        log_views(lines).len() == lines.len(),
        0 <= i < lines.len() ==> log_views(lines)[i].level == lines[i].level@ && log_views(
            lines,
        )[i].message == lines[i].message@,
{
}

/// The models of messages, tools, requests and responses keep each of their
/// parts.
pub proof fn law_conversations_are_seen_whole(
    message: Message,
    tool: ToolSpec,
    request: LlmRequest,
    response: LlmResponse,
)
    ensures
        message@.role == message.role,
        message@.content == blocks(message.content@),
        tool@.name == tool.name@,
        tool@.description == tool.description@,
        tool@.input_schema == json_tree(tool.input_schema),
        request@.messages == message_views(request.messages@),
        request@.tools == tool_views(request.tools@),
        request.system matches Some(system) ==> request@.system == Some(system@),
        request.system is None ==> request@.system is None,
        response@.stop_reason == response.stop_reason@,
        response@.content == blocks(response.content@),
        response@.usage == response.usage,
{
}

/// The models of outputs, records, failures and fetches keep each of their parts.
pub proof fn law_outputs_are_seen_whole(
    output: AgentOutput,
    call: ToolCallRecord,
    error: CapError,
    fetch: HttpFetch,
    url: ParsedUrl,
)
    ensures
        output@.answer == output.answer@,
        output@.steps == output.steps,
        output@.stop == output.stop,
        output@.tool_calls == records(output.tool_calls@),
        output@.usage == output.usage,
        call@.step == call.step,
        call@.name == call.name@,
        call@.input == json_tree(call.input),
        call@.ok == call.ok,
        call@.result == call.result@,
        error@.kind == error.kind@,
        error@.message == error.message@,
        fetch@.url == fetch.url@,
        fetch@.host == fetch.host@,
        fetch@.limit == fetch.limit,
        url@.url == url.url@,
        url@.scheme == url.scheme@,
        url@.host == opt_text(url.host),
        opt_text(url.host) is Some <==> url.host is Some,
        url.host matches Some(host) ==> opt_text(url.host) == Some(host@),
{
}

/// The models of the agent's steps keep where it stands and all that it logs.
pub proof fn law_steps_are_seen_whole(
    advance: Advance,
    calls: Seq<ToolCall>,
    lines: Seq<AgentLog>,
    i: int,
)
    ensures
        advance.state matches AgentState::Thinking(session) ==> advance@.state
            == AgentStateView::Thinking(session@),
        advance.state matches AgentState::Acting(session, batch) ==> advance@.state
            == AgentStateView::Acting(session@, batch@),
        advance.state matches AgentState::Finished(output) ==> advance@.state
            == AgentStateView::Finished(output@),
        advance@.logs == logged(advance.logs@),
        logged(lines).len() == lines.len(),
        0 <= i < lines.len() ==> logged(lines)[i] == (lines[i].level, lines[i].message@),
        tool_calls(calls).len() == calls.len(),
        0 <= i < calls.len() ==> tool_calls(calls)[i].id == calls[i].id@ && tool_calls(
            calls,
        )[i].name == calls[i].name@ && tool_calls(calls)[i].input == json_tree(calls[i].input),
{
}

} // verus!
