//! What the calls of this library do to one another's results: laws over the
//! calls themselves, whatever they are made on.

use std::sync::Arc;

use vstd::prelude::*;
use vstd::utf8::*;

use crate::abi::{
    blocks, records, tool_views, AgentInput, AgentOutput, CapError, CapResponse, Content, ContentView, LlmRequest, LlmResponse,
    MessageView, Role, StopReason, ToolInvokeRequest, ToolInvokeResponse, ToolsListResponse,
};
use crate::agent::{open_session, tool_uses, Advance, AgentStateView, Batch, Session};
use crate::agent_laws::{
    law_a_run_goes_on_while_tools_are_asked_for, law_every_tool_use_is_a_call, tool_use_places,
};
use crate::exports::{input_rejected, on_copied, on_decoded, tds_abi_version, unencodable};
use crate::guest::{read_guest, write_guest};
use crate::host::{
    encoding_failure, fetched, log_views, respond, CallStep, CapReply, CapRequest, HostState, LogLine, Payload,
};
use crate::json::{json_tree, member_tree, text_member, JsonTree};
use crate::llm::{build, usable_key, AnthropicProvider, Exchange, KeyError, LlmProvider, ModelAccess};
use crate::mock::{mock_turn_of, requested_calls, task_of, MockProvider};
use crate::module::{module_exports, module_imports};
use crate::policy::{Effort, HttpToolConfig, LlmConfig, Policy, PolicyError, Provider, Thinking};
use crate::run_laws::{has_the_exports, of_the_host};
use crate::runtime::{check_abi_version, describe_trap, failure_of, RunReport, Runtime, RuntimeError};
use crate::service::{accept_run, check_text, policy_summary, PolicySummary, RunRequest};
use crate::text::{decimal, opt_text, texts, white};
use crate::tool_call_laws::{
    known_places, law_known_names_are_described, law_tools_are_described_by_their_arguments,
};
use crate::tools::{
    described, described_all, tool_enabled, url_of, FetchStep, HttpFetch, ToolBox, ToolReply,
};
use crate::wire::{content_json, content_of_json, content_tree};

verus! {

// ---------------------------------------------------------------------------
// Memory and responses
// ---------------------------------------------------------------------------

/// A read of guest memory hands out exactly the bytes of the range, whenever the
/// range lies inside the memory.
pub proof fn law_reads_copy_the_range(
    memory: &[u8],
    ptr: u32,
    len: u32,
    bytes: Option<Vec<u8>>,
)
    requires
        call_ensures(read_guest, (Some(memory), ptr, len), bytes),
    ensures
        bytes is Some <==> ptr + len <= memory@.len(),
        bytes is Some ==> bytes->Some_0@ == memory@.subrange(ptr as int, ptr + len),
{
}

/// A write to guest memory followed by a read of the same range gives back what
/// was written; and no byte outside the range changes.
pub proof fn law_writes_are_read_back(memory: &mut [u8], ptr: u32, bytes: &[u8], done: bool)
    requires
        call_ensures(write_guest, (Some(memory), ptr, bytes), done),
    ensures
        done <==> ptr + bytes@.len() <= old(memory)@.len(),
        done ==> {
            &&& final(memory)@.len() == old(memory)@.len()
            &&& forall|i: int|
                0 <= i < final(memory)@.len() ==> #[trigger] final(memory)@[i] == if ptr <= i < ptr
                    + bytes@.len() {
                    bytes@[i - ptr]
                } else {
                    old(memory)@[i]
                }
        },
        !done ==> final(memory)@ == old(memory)@,
{
}

/// The response that the host keeps is the one that the guest reads: a guest
/// that asks for the length that the call returned finds it at the place that it
/// names, if there is room.
pub proof fn law_the_guest_reads_what_the_host_keeps<P: LlmProvider>(
    keeper: &mut HostState<P>,
    response: Vec<u8>,
    code: i32,
    reader: &mut HostState<P>,
    memory: &mut [u8],
    ptr: u32,
    copied: i32,
)
    requires
        call_ensures(HostState::<P>::deliver, (keeper, response), code),
        *old(reader) == *final(keeper),
        response@.len() <= i32::MAX,
        ptr + response@.len() <= old(memory)@.len(),
        call_ensures(
            HostState::<P>::response_read,
            (reader, Some(memory), ptr, code as u32),
            copied,
        ),
    ensures
        code == response@.len(),
        copied == code,
        final(memory)@.subrange(ptr as int, ptr + response@.len()) == response@,
        final(memory)@.len() == old(memory)@.len(),
        final(reader)@.pending.len() == 0,
        final(reader)@.kv == old(keeper)@.kv,
        final(reader)@.logs == old(keeper)@.logs,
        final(reader)@.llm_calls == old(keeper)@.llm_calls,
        final(reader)@.policy == old(keeper)@.policy,
{
    assert(final(memory)@.subrange(ptr as int, ptr + response@.len()) =~= response@);
}

/// A guest that does not know the length of the response learns nothing and
/// loses nothing.
pub proof fn law_a_wrong_length_reads_nothing<P: LlmProvider>(
    host: &mut HostState<P>,
    memory: &mut [u8],
    ptr: u32,
    len: u32,
    code: i32,
)
    requires
        call_ensures(HostState::<P>::response_read, (host, Some(memory), ptr, len), code),
        old(host)@.pending.len() != len,
    ensures
        code == -2,
        final(memory)@ == old(memory)@,
        final(host)@ == old(host)@,
{
}

/// A call whose lengths are within the limits, whose ranges lie inside the
/// memory, and whose name is valid UTF-8, goes to dispatch with its name and
/// with all bytes of its request.
pub proof fn law_admitted_calls_reach_dispatch<P: LlmProvider>(
    host: &HostState<P>,
    memory: &[u8],
    name_ptr: u32,
    name_len: u32,
    req_ptr: u32,
    req_len: u32,
    step: CallStep,
)
    requires
        call_ensures(
            HostState::<P>::admit_call,
            (host, Some(memory), name_ptr, name_len, req_ptr, req_len),
            step,
        ),
        req_len <= host@.policy.limits.max_request_bytes,
        name_len <= 256,
        name_ptr + name_len <= memory@.len(),
        req_ptr + req_len <= memory@.len(),
        valid_utf8(memory@.subrange(name_ptr as int, name_ptr + name_len)),
    ensures
        step matches CallStep::Dispatch { name, request } && {
            &&& name@ == decode_utf8(memory@.subrange(name_ptr as int, name_ptr + name_len))
            &&& request@ == memory@.subrange(req_ptr as int, req_ptr + req_len)
        },
{
}

// ---------------------------------------------------------------------------
// The log
// ---------------------------------------------------------------------------

/// How much is kept of a log line of some length, in bytes.
pub open spec fn kept_of(len: u32) -> int {
    if len <= 8192 {
        len as int
    } else {
        8192
    }
}

/// A line inside the guest's memory is handed on, its first 8 KiB whole, and kept
/// at the end of the log while the log holds fewer than 512 lines; what was kept
/// before stays.
pub proof fn law_log_lines_are_kept_whole<P: LlmProvider>(
    host: &mut HostState<P>,
    memory: &[u8],
    level: i32,
    ptr: u32,
    len: u32,
    line: Option<LogLine>,
)
    requires
        call_ensures(HostState::<P>::log, (host, Some(memory), level, ptr, len), line),
        ptr + kept_of(len) <= memory@.len(),
        valid_utf8(memory@.subrange(ptr as int, ptr + kept_of(len))),
    ensures
        line is Some,
        line->Some_0.message@ == decode_utf8(
            memory@.subrange(ptr as int, ptr + kept_of(len)),
        ),
        line->Some_0.level@ == if level == 0 {
            "debug"@
        } else if level == 2 {
            "warn"@
        } else if level == 3 {
            "error"@
        } else {
            "info"@
        },
        old(host)@.logs.len() < 512 ==> final(host)@.logs == old(host)@.logs.push(line->Some_0@),
        old(host)@.logs.len() >= 512 ==> final(host)@.logs == old(host)@.logs,
        final(host)@.kv == old(host)@.kv,
        final(host)@.pending == old(host)@.pending,
        final(host)@.llm_calls == old(host)@.llm_calls,
        final(host)@.policy == old(host)@.policy,
{
}

/// A line outside the guest's memory is dropped.
pub proof fn law_lines_outside_the_memory_are_dropped<P: LlmProvider>(
    host: &mut HostState<P>,
    memory: &[u8],
    level: i32,
    ptr: u32,
    len: u32,
    line: Option<LogLine>,
)
    requires
        call_ensures(HostState::<P>::log, (host, Some(memory), level, ptr, len), line),
        ptr + kept_of(len) > memory@.len(),
    ensures
        line is None,
        final(host)@ == old(host)@,
{
}

/// Taking the log gives all lines that were kept, in order, and empties it.
pub proof fn law_the_log_is_taken_whole<P: LlmProvider>(host: &mut HostState<P>, logs: Vec<LogLine>)
    requires
        call_ensures(HostState::<P>::take_logs, (host,), logs),
    ensures
        logs@.len() == old(host)@.logs.len(),
        forall|i: int| 0 <= i < logs@.len() ==> (#[trigger] logs@[i])@ == old(host)@.logs[i],
        final(host)@.logs.len() == 0,
        final(host)@.kv == old(host)@.kv,
        final(host)@.pending == old(host)@.pending,
{
    let shown = crate::host::log_views(logs@);
    assert(shown.len() == logs@.len());
    assert forall|i: int| 0 <= i < logs@.len() implies (#[trigger] logs@[i])@ == old(host)@.logs[i] by {
        assert(shown[i] == logs@[i]@);
    }
}

// ---------------------------------------------------------------------------
// Capabilities
// ---------------------------------------------------------------------------

/// A run starts with an empty scratchpad, an empty log, nothing to read, and no
/// model turn used.
pub proof fn law_a_run_starts_fresh<P: LlmProvider>(policy: Arc<Policy>, llm: P, host: HostState<P>)
    requires
        call_ensures(HostState::<P>::new, (policy, llm), host),
    ensures
        host@.policy == *policy,
        host@.kv == Map::<Seq<char>, Seq<char>>::empty(),
        host@.logs.len() == 0,
        host@.pending.len() == 0,
        host@.llm_calls == 0,
{
}

/// A model turn is passed to the model as it was asked for, its answer is passed
/// back as it was given, and it is counted, as long as the policy allows one
/// more; beyond that the model is not asked.
pub proof fn law_model_turns_are_counted_and_passed_on<P: LlmProvider>(
    host: &mut HostState<P>,
    turn: LlmRequest,
    reply: CapReply,
)
    requires
        call_ensures(
            HostState::<P>::dispatch,
            (host, CapRequest::LlmComplete(Payload::Decoded(turn))),
            reply,
        ),
    ensures
        final(host)@.kv == old(host)@.kv,
        final(host)@.logs == old(host)@.logs,
        final(host)@.pending == old(host)@.pending,
        final(host)@.policy == old(host)@.policy,
        old(host)@.llm_calls < old(host)@.policy.limits.max_steps ==> {
            &&& final(host)@.llm_calls == old(host)@.llm_calls + 1
            &&& reply matches CapReply::Model(response)
            &&& response matches CapResponse::Success(answer) ==> call_ensures(
                P::complete,
                (&old(host)@.llm, &turn),
                Ok::<LlmResponse, CapError>(answer),
            )
            &&& response matches CapResponse::Failure(error) ==> call_ensures(
                P::complete,
                (&old(host)@.llm, &turn),
                Err::<LlmResponse, CapError>(error),
            )
        },
        old(host)@.llm_calls >= old(host)@.policy.limits.max_steps ==> {
            &&& final(host)@.llm_calls == old(host)@.llm_calls
            &&& reply matches CapReply::Model(CapResponse::Failure(error))
            &&& error.kind@ == "denied"@
        },
{
}

/// What one tool call of a run stores, a later one gives back, whole: with
/// nothing but other calls in between that leave the scratchpad alone.
pub proof fn law_a_run_remembers_what_it_stores<P: LlmProvider>(
    writer: &mut HostState<P>,
    put: ToolInvokeRequest,
    stored: CapReply,
    reader: &mut HostState<P>,
    get: ToolInvokeRequest,
    reply: CapReply,
)
    requires
        call_ensures(
            HostState::<P>::dispatch,
            (writer, CapRequest::ToolInvoke(Payload::Decoded(put))),
            stored,
        ),
        put.name@ == "kv_put"@,
        stored matches CapReply::Tool(CapResponse::Success(_)),
        old(reader)@.kv == final(writer)@.kv,
        old(reader)@.policy == final(writer)@.policy,
        call_ensures(
            HostState::<P>::dispatch,
            (reader, CapRequest::ToolInvoke(Payload::Decoded(get))),
            reply,
        ),
        get.name@ == "kv_get"@,
        tool_enabled(old(writer)@.policy, "kv_get"@),
        text_member(json_tree(get.input), "key"@) == text_member(json_tree(put.input), "key"@),
    ensures
        text_member(json_tree(put.input), "value"@) is Some,
        reply matches CapReply::Tool(CapResponse::Success(response)) && response.content@
            == text_member(json_tree(put.input), "value"@)->Some_0,
{
    crate::tool_laws::lemma_names_differ();
}

/// A lookup of a key that another was stored under since gives what it gave
/// before.
pub proof fn law_other_keys_are_left_alone<P: LlmProvider>(
    writer: &mut HostState<P>,
    put: ToolInvokeRequest,
    stored: CapReply,
    reader: &mut HostState<P>,
    get: ToolInvokeRequest,
    reply: CapReply,
    key: Seq<char>,
)
    requires
        call_ensures(
            HostState::<P>::dispatch,
            (writer, CapRequest::ToolInvoke(Payload::Decoded(put))),
            stored,
        ),
        text_member(json_tree(put.input), "key"@) != Some(key),
        old(writer)@.kv.contains_key(key),
        old(reader)@.kv == final(writer)@.kv,
        old(reader)@.policy == final(writer)@.policy,
        call_ensures(
            HostState::<P>::dispatch,
            (reader, CapRequest::ToolInvoke(Payload::Decoded(get))),
            reply,
        ),
        get.name@ == "kv_get"@,
        tool_enabled(old(writer)@.policy, "kv_get"@),
        text_member(json_tree(get.input), "key"@) == Some(key),
    ensures
        reply matches CapReply::Tool(CapResponse::Success(response)) && response.content@
            == old(writer)@.kv[key],
{
    crate::tool_laws::lemma_names_differ();
}

/// A tool that the policy does not list is denied, and the call changes nothing.
pub proof fn law_unlisted_tools_are_denied<P: LlmProvider>(
    host: &mut HostState<P>,
    call: ToolInvokeRequest,
    reply: CapReply,
)
    requires
        call_ensures(
            HostState::<P>::dispatch,
            (host, CapRequest::ToolInvoke(Payload::Decoded(call))),
            reply,
        ),
        forall|i: int|
            0 <= i < old(host)@.policy.tools.enabled@.len() ==> (
            #[trigger] old(host)@.policy.tools.enabled@[i])@ != call.name@,
    ensures
        final(host)@ == old(host)@,
        reply matches CapReply::Tool(CapResponse::Failure(error)) && error.kind@ == "denied"@,
{
    crate::tool_call_laws::law_tools_are_enabled_by_name(old(host)@.policy, call.name@);
}

/// A fetch of an https URL whose host is on the allowlist is carried out: the
/// reply is to fetch that URL. Nothing else is fetched.
pub proof fn law_fetches_go_where_they_may<P: LlmProvider>(
    host: &mut HostState<P>,
    call: ToolInvokeRequest,
    reply: CapReply,
)
    requires
        call_ensures(
            HostState::<P>::dispatch,
            (host, CapRequest::ToolInvoke(Payload::Decoded(call))),
            reply,
        ),
    ensures
        ({
            let policy = old(host)@.policy;
            let url = text_member(json_tree(call.input), "url"@);
            let permitted = call.name@ == "http_get"@ && tool_enabled(policy, "http_get"@) && url is Some
                && url_of(url->Some_0) is Ok && url_of(url->Some_0)->Ok_0.scheme == "https"@
                && url_of(url->Some_0)->Ok_0.host is Some && policy.tools.http.covers(
                url_of(url->Some_0)->Ok_0.host->Some_0,
            );
            &&& reply is Fetch <==> permitted
            &&& reply matches CapReply::Fetch(fetch) ==> fetch.url@ == url_of(
                url->Some_0,
            )->Ok_0.url && fetch.limit == policy.tools.http.max_response_bytes
        }),
{
    crate::tool_laws::lemma_names_differ();
}

/// The tools that are listed are those that the policy enables and the host
/// knows, in the policy's order, and listing them changes nothing.
pub proof fn law_enabled_tools_are_listed<P: LlmProvider>(host: &mut HostState<P>, reply: CapReply)
    requires
        call_ensures(HostState::<P>::dispatch, (host, CapRequest::ToolsList), reply),
    ensures
        final(host)@ == old(host)@,
        reply matches CapReply::Tools(CapResponse::Success(list)) && {
            let names = texts(old(host)@.policy.tools.enabled@);
            exists|at: Seq<int>|
                {
                    &&& #[trigger] known_places(names, at)
                    &&& list.tools@.len() == at.len()
                    &&& forall|k: int|
                        0 <= k < at.len() ==> list.tools@[k].name@ == names[#[trigger] at[k]]
                }
        },
{
    let names = texts(old(host)@.policy.tools.enabled@);
    law_known_names_are_described(names);
    let at = choose|at: Seq<int>|
        {
            &&& #[trigger] known_places(names, at)
            &&& described_all(names).len() == at.len()
            &&& forall|k: int|
                0 <= k < at.len() ==> described(names[#[trigger] at[k]]) == Some(
                    described_all(names)[k],
                )
        };
    if let CapReply::Tools(CapResponse::Success(list)) = reply {
        let shown = tool_views(list.tools@);
        assert(shown.len() == list.tools@.len());
        assert forall|k: int| 0 <= k < at.len() implies list.tools@[k].name@ == names[
            #[trigger] at[k]] by {
            assert(shown[k] == list.tools@[k]@);
            law_tools_are_described_by_their_arguments(names[at[k]]);
        }
    }
}

/// A request that cannot be taken changes nothing. One that is no JSON ends with
/// the code for that, one of the wrong shape is answered that it is malformed, and
/// one for a capability that does not exist that there is none.
pub proof fn law_bad_requests_change_nothing<P: LlmProvider>(
    host: &mut HostState<P>,
    request: CapRequest,
    reply: CapReply,
)
    requires
        call_ensures(HostState::<P>::dispatch, (host, request), reply),
    ensures
        request == CapRequest::ToolInvoke(Payload::NotJson) ==> final(host)@ == old(host)@ && reply
            == CapReply::Code(-2i32),
        request matches CapRequest::ToolInvoke(Payload::WrongShape(why)) ==> {
            &&& final(host)@ == old(host)@
            &&& reply matches CapReply::Tool(CapResponse::Failure(error))
            &&& error.kind@ == "invalid"@
            &&& error.message@ == "malformed tool.invoke request: "@ + why@
        },
        old(host)@.llm_calls < old(host)@.policy.limits.max_steps ==> (request matches
            CapRequest::LlmComplete(Payload::WrongShape(why)) ==> {
            &&& final(host)@ == old(host)@
            &&& reply matches CapReply::Model(CapResponse::Failure(error))
            &&& error.kind@ == "invalid"@
            &&& error.message@ == "malformed llm.complete request: "@ + why@
        }),
        request == CapRequest::LlmComplete(Payload::NotJson) && old(host)@.llm_calls
            < old(host)@.policy.limits.max_steps ==> final(host)@ == old(host)@ && reply
            == CapReply::Code(-2i32),
        request matches CapRequest::Unknown(name) ==> {
            &&& final(host)@ == old(host)@
            &&& reply matches CapReply::Refused(error)
            &&& error.kind@ == "not_found"@
        },
{
}

/// The same of the tool box itself.
pub proof fn law_a_tool_box_remembers_what_it_stores(
    writer: &mut ToolBox,
    put: &serde_json::Value,
    stored: Result<ToolReply, CapError>,
    reader: &mut ToolBox,
    get: &serde_json::Value,
    reply: Result<ToolReply, CapError>,
    kv_put: &str,
    kv_get: &str,
)
    requires
        kv_put@ == "kv_put"@,
        kv_get@ == "kv_get"@,
        call_ensures(ToolBox::invoke, (writer, kv_put, put), stored),
        stored is Ok,
        *old(reader) == *final(writer),
        call_ensures(ToolBox::invoke, (reader, kv_get, get), reply),
        tool_enabled(old(writer).policy(), "kv_get"@),
        text_member(json_tree(*get), "key"@) == text_member(json_tree(*put), "key"@),
    ensures
        text_member(json_tree(*put), "value"@) is Some,
        reply matches Ok(ToolReply::Text(text)) && text@ == text_member(
            json_tree(*put),
            "value"@,
        )->Some_0,
{
    crate::tool_laws::lemma_names_differ();
}

// ---------------------------------------------------------------------------
// The conversation
// ---------------------------------------------------------------------------

/// A block of a known type that is written and read is the block that it was.
pub proof fn law_written_blocks_are_read_back(
    block: &Content,
    value: serde_json::Value,
    again: Content,
)
    requires
        call_ensures(content_json, (block,), value),
        call_ensures(content_of_json, (value,), again),
        *block is Known,
    ensures
        again@ == block@,
{
    crate::wire::law_known_blocks_survive(block@);
}

/// A block of an unknown type that is read and written is the value that it was.
pub proof fn law_unknown_blocks_are_written_back(
    value: serde_json::Value,
    block: Content,
    again: serde_json::Value,
)
    requires
        call_ensures(content_of_json, (value,), block),
        block is Raw,
        call_ensures(content_json, (&block,), again),
    ensures
        json_tree(again) == json_tree(value),
{
}

/// The body of a request holds a message for each message of the conversation,
/// in order, each with its role and with the JSON of each of its blocks, in
/// order.
pub proof fn law_bodies_hold_every_message(
    provider: &AnthropicProvider,
    request: &LlmRequest,
    body: serde_json::Value,
)
    requires
        call_ensures(AnthropicProvider::body, (provider, request), body),
    ensures
        member_tree(json_tree(body), "messages"@) matches Some(JsonTree::List(items)) && {
            &&& items.len() == request.messages@.len()
            &&& forall|i: int|
                0 <= i < items.len() ==> {
                    let message = request.messages@[i];
                    &&& member_tree(#[trigger] items[i], "role"@) == Some(
                        JsonTree::Text(
                            match message.role {
                                Role::User => "user"@,
                                Role::Assistant => "assistant"@,
                            },
                        ),
                    )
                    &&& member_tree(items[i], "content"@) is Some
                    &&& member_tree(items[i], "content"@)->Some_0 is List
                    &&& member_tree(items[i], "content"@)->Some_0->List_0.len()
                        == message.content@.len()
                    &&& forall|j: int|
                        0 <= j < message.content@.len() ==> #[trigger] member_tree(
                            items[i],
                            "content"@,
                        )->Some_0->List_0[j] == content_tree(message.content@[j]@)
                }
        },
{
    crate::wire_laws::law_the_model_reads_the_whole_conversation(provider.config(), request@);
    let items = member_tree(json_tree(body), "messages"@)->Some_0->List_0;
    assert forall|i: int| 0 <= i < items.len() implies {
        let message = request.messages@[i];
        &&& member_tree(#[trigger] items[i], "content"@)->Some_0->List_0.len()
            == message.content@.len()
        &&& forall|j: int|
            0 <= j < message.content@.len() ==> #[trigger] member_tree(
                items[i],
                "content"@,
            )->Some_0->List_0[j] == content_tree(message.content@[j]@)
    } by {
        let message = request.messages@[i];
        assert(request@.messages[i] == message@);
        assert(message@.content.len() == message.content@.len());
        assert forall|j: int| 0 <= j < message.content@.len() implies #[trigger] member_tree(
            items[i],
            "content"@,
        )->Some_0->List_0[j] == content_tree(message.content@[j]@) by {
            assert(message@.content[j] == message.content@[j]@);
        }
    }
}

// ---------------------------------------------------------------------------
// The agent
// ---------------------------------------------------------------------------

/// A model turn that is no refusal and holds a tool-use block, wherever it
/// stands, leads to a tool call; and the calls are those blocks, each once and in
/// order.
pub proof fn law_model_turns_lead_to_their_calls(
    session: Session,
    response: LlmResponse,
    advance: Advance,
)
    requires
        call_ensures(Session::on_model, (session, Ok(response)), advance),
        response.stop_reason@ != "refusal"@,
        exists|i: int|
            0 <= i < response.content@.len() && (#[trigger] response.content@[i])@ is ToolUse,
    ensures
        advance@.state matches AgentStateView::Acting(later, batch) && {
            &&& later.messages == session@.messages.push(
                MessageView { role: Role::Assistant, content: blocks(response.content@) },
            )
            &&& batch.results.len() == 0
            &&& exists|at: Seq<int>|
                {
                    &&& #[trigger] tool_use_places(blocks(response.content@), at)
                    &&& batch.calls.len() == at.len()
                    &&& forall|k: int|
                        0 <= k < at.len() ==> response.content@[#[trigger] at[k]]@ == (
                        ContentView::ToolUse {
                            id: batch.calls[k].id,
                            name: batch.calls[k].name,
                            input: batch.calls[k].input,
                        })
                }
        },
{
    let content = blocks(response.content@);
    let i = choose|i: int|
        0 <= i < response.content@.len() && (#[trigger] response.content@[i])@ is ToolUse;
    assert(content[i] is ToolUse);
    law_a_run_goes_on_while_tools_are_asked_for(session@, response@);
    law_every_tool_use_is_a_call(content);
    let at = choose|at: Seq<int>|
        {
            &&& #[trigger] tool_use_places(content, at)
            &&& tool_uses(content).len() == at.len()
            &&& forall|k: int|
                0 <= k < at.len() ==> content[#[trigger] at[k]] == (ContentView::ToolUse {
                    id: tool_uses(content)[k].id,
                    name: tool_uses(content)[k].name,
                    input: tool_uses(content)[k].input,
                })
        };
    assert forall|k: int| 0 <= k < at.len() implies response.content@[#[trigger] at[k]]@ == (
    ContentView::ToolUse {
        id: tool_uses(content)[k].id,
        name: tool_uses(content)[k].name,
        input: tool_uses(content)[k].input,
    }) by {
        assert(0 <= at[k] < content.len());
        assert(content[at[k]] == response.content@[at[k]]@);
    }
}

/// The tool that is called is the one that the model asked for next, with the
/// input that it gave.
pub proof fn law_the_tool_asked_for_is_called(batch: &Batch, request: ToolInvokeRequest)
    requires
        call_ensures(Batch::request, (batch,), request),
    ensures
        request.name@ == batch@.calls[batch@.results.len() as int].name,
        json_tree(request.input) == batch@.calls[batch@.results.len() as int].input,
{
}

/// What a tool replies is what the model reads of it, whole; the results of the
/// calls before it stay as they are.
pub proof fn law_tool_replies_reach_the_model_whole(
    session: Session,
    batch: Batch,
    text: String,
    advance: Advance,
)
    requires
        call_ensures(
            Session::on_tool,
            (session, batch, Ok(ToolInvokeResponse { content: text })),
            advance,
        ),
        session@.wf(),
        batch@.wf(),
        session@.step < session@.max_steps,
    ensures
        ({
            let results = match advance@.state {
                AgentStateView::Acting(_, later) => later.results,
                AgentStateView::Thinking(later) => later.messages.last().content,
                AgentStateView::Finished(_) => Seq::empty(),
            };
            results == batch@.results.push(
                ContentView::ToolResult {
                    tool_use_id: batch@.calls[batch@.results.len() as int].id,
                    content: text@,
                    is_error: false,
                },
            )
        }),
{
}

/// The request for a model turn holds all messages and all tools of the session.
pub proof fn law_model_requests_hold_the_session(session: &Session, request: LlmRequest)
    requires
        call_ensures(Session::request, (session,), request),
    ensures
        request@.messages == session@.messages,
        request@.tools == session@.tools,
{
}

// ---------------------------------------------------------------------------
// Rules and reports
// ---------------------------------------------------------------------------

/// A host is let through exactly if a rule names it, or has it below its domain.
pub proof fn law_hosts_are_let_through_by_rules(config: &HttpToolConfig, host: &str, allowed: bool)
    requires
        call_ensures(HttpToolConfig::allows, (config, host), allowed),
    ensures
        allowed <==> exists|i: int|
            0 <= i < config.allowed_hosts@.len() && crate::policy::rule_covers(
                (#[trigger] config.allowed_hosts@[i])@,
                host@,
            ),
{
    crate::policy_laws::law_a_host_is_covered_by_a_rule(*config, host@);
}

/// A task is accepted exactly if it holds anything but white space, and then as
/// it is.
pub proof fn law_tasks_are_accepted_as_they_are(
    request: RunRequest,
    input: Result<AgentInput, String>,
)
    requires
        call_ensures(accept_run, (request,), input),
    ensures
        input is Ok <==> exists|i: int|
            0 <= i < request.task@.len() && !white(#[trigger] request.task@[i]),
        input matches Ok(accepted) ==> accepted.task@ == request.task@ && accepted.max_steps
            == request.max_steps && opt_text(accepted.context) == opt_text(request.context),
{
    crate::text_laws::law_blank_is_white_space_alone(request.task@);
}

/// What a run is given is what was asked for, but for the number of steps, which
/// is the smaller of those asked for and those allowed.
pub proof fn law_a_run_gets_what_was_asked(
    runtime: &Runtime,
    input: AgentInput,
    granted: AgentInput,
)
    requires
        call_ensures(Runtime::grant, (runtime, input), granted),
    ensures
        granted.task@ == input.task@,
        opt_text(granted.context) == opt_text(input.context),
        granted.max_steps <= input.max_steps,
        granted.max_steps <= runtime.rules().limits.max_steps,
        granted.max_steps == input.max_steps || granted.max_steps
            == runtime.rules().limits.max_steps,
{
}

/// A report holds the agent's output, the model, the time and the whole log as
/// they are, and the fuel that is gone.
pub proof fn law_a_report_holds_what_happened(
    runtime: &Runtime,
    output: AgentOutput,
    model: String,
    duration_ms: u128,
    left: u64,
    logs: Vec<LogLine>,
    report: RunReport,
)
    requires
        call_ensures(
            Runtime::report,
            (runtime, Ok(output), model, duration_ms, Some(left), logs),
            report,
        ),
        left <= runtime.rules().limits.fuel,
    ensures
        report.output.answer@ == output.answer@,
        report.output.steps == output.steps,
        report.output.stop == output.stop,
        report.output.usage == output.usage,
        records(report.output.tool_calls@) == records(output.tool_calls@),
        report.model@ == model@,
        report.duration_ms == duration_ms,
        report.fuel_used + left == runtime.rules().limits.fuel,
        log_views(report.logs@) == log_views(logs@),
{
    assert(report@.output == output@);
}

/// A module that compiled is accepted exactly if it has the shape of an agent;
/// one that did not is reported with the compiler's words.
pub proof fn law_compiled_modules_are_judged_by_their_shape(
    policy: Arc<Policy>,
    compiled: Result<wasmtime::Module, String>,
    runtime: Result<Runtime, RuntimeError>,
)
    requires
        call_ensures(Runtime::from_compiled, (policy, compiled), runtime),
    ensures
        compiled matches Ok(module) ==> {
            &&& runtime is Ok <==> has_the_exports(module_exports(module)) && forall|i: int|
                0 <= i < module_imports(module).len() ==> of_the_host(
                    #[trigger] module_imports(module)[i],
                )
            &&& runtime is Ok ==> runtime->Ok_0.rules() == *policy && runtime->Ok_0.code() == module
        },
        compiled matches Err(error) ==> runtime == Err::<Runtime, RuntimeError>(
            RuntimeError::Compile(error),
        ),
{
    if let Ok(module) = compiled {
        crate::run_laws::law_modules_are_accepted_by_their_shape(
            module_imports(module),
            module_exports(module),
        );
    }
}

/// A run's first request to the model ends with the task, in full, and offers
/// every tool that the host listed.
pub proof fn law_the_model_is_given_the_task(
    input: AgentInput,
    list: ToolsListResponse,
    advance: Advance,
)
    requires
        call_ensures(open_session, (input, Ok(list)), advance),
        input.max_steps > 0,
    ensures
        advance@.state matches AgentStateView::Thinking(session) && {
            &&& session.request().messages.last() == (MessageView {
                role: Role::User,
                content: seq![ContentView::Text { text: input.task@ }],
            })
            &&& session.request().tools == tool_views(list.tools@)
            &&& session.max_steps == input.max_steps
            &&& session.step == 1
        },
{
}

/// A failed model call ends the run with its failure in words.
pub proof fn law_model_failures_end_the_run(session: Session, error: CapError, advance: Advance)
    requires
        call_ensures(Session::on_model, (session, Err(error)), advance),
        session@.wf(),
    ensures
        advance@.state matches AgentStateView::Finished(output) && {
            &&& output.stop == StopReason::Error
            &&& output.steps == session@.step - 1
            &&& output.tool_calls == session@.record
            &&& output.usage == session@.usage
        },
{
}

/// A policy passes exactly if it keeps every rule.
pub proof fn law_policies_pass_by_the_rules(policy: &Policy, verdict: Result<(), PolicyError>)
    requires
        call_ensures(Policy::validate, (policy,), verdict),
    ensures
        verdict is Ok <==> policy.valid(),
        verdict is Err <==> policy.fault() is Some,
        verdict matches Err(error) ==> policy.fault() == Some(error@),
{
}

/// Access to the API is set up exactly if it is configured and there is a usable
/// key, and then with that configuration and that key; the stand-in needs none.
pub proof fn law_models_are_set_up_as_configured(
    config: LlmConfig,
    api_key: Option<String>,
    access: Result<ModelAccess, KeyError>,
)
    requires
        call_ensures(build, (config, api_key), access),
    ensures
        config.provider == Provider::Mock ==> access is Ok && access->Ok_0 is Mock,
        config.provider == Provider::Anthropic ==> (access is Ok <==> usable_key(opt_text(api_key))),
        config.provider == Provider::Anthropic && access is Ok ==> {
            &&& access->Ok_0 matches ModelAccess::Anthropic(provider)
            &&& provider.config() == config
            &&& provider.api_key() == api_key->Some_0@
        },
{
}

/// A completion starts with no attempt behind it and with as many retries as are
/// configured.
pub proof fn law_completions_start_afresh(provider: &AnthropicProvider, exchange: Exchange)
    requires
        call_ensures(AnthropicProvider::exchange, (provider,), exchange),
    ensures
        exchange.attempt == 0,
        exchange.max_retries == provider.config().max_retries,
{
}

/// The stand-in always answers, and calls nothing that it was not offered.
pub proof fn law_the_stand_in_always_answers(
    request: &LlmRequest,
    response: Result<LlmResponse, CapError>,
)
    requires
        call_ensures(MockProvider::complete, (&MockProvider, request), response),
    ensures
        response is Ok,
        response->Ok_0@ == mock_turn_of(request@, requested_calls(task_of(request@.messages))),
{
}

/// What the effective policy shows is what the policy holds.
pub proof fn law_the_effective_policy_is_the_policy(policy: &Policy, summary: PolicySummary)
    requires
        call_ensures(policy_summary, (policy,), summary),
    ensures
        summary.limits == policy.limits,
        summary.provider == policy.llm.provider,
        summary.model@ == policy.llm.model@,
        summary.effort == policy.llm.effort,
        summary.thinking == policy.llm.thinking,
        summary.max_tokens == policy.llm.max_tokens,
        summary.api_key_env@ == policy.llm.api_key_env@,
        texts(summary.enabled@) == texts(policy.tools.enabled@),
        texts(summary.http_allowed_hosts@) == texts(policy.tools.http.allowed_hosts@),
{
}

/// What a redirection leads to is replied and not read; of any other response
/// enough is read to tell whether it is within the limit.
pub proof fn law_responses_are_read_unless_redirected(
    fetch: &HttpFetch,
    status: u16,
    location: Option<String>,
    step: FetchStep,
)
    requires
        call_ensures(HttpFetch::on_response, (fetch, status, location), step),
    ensures
        step is Reply <==> status / 100 == 3,
        step matches FetchStep::ReadBody(most) ==> most > fetch.limit || most == usize::MAX,
{
}

/// A response that was copied in full is taken, and no other.
pub proof fn law_only_full_responses_are_taken(
    name: &str,
    len: u32,
    copied: i32,
    verdict: Result<(), CapError>,
)
    requires
        call_ensures(on_copied, (name, len, copied), verdict),
    ensures
        verdict is Ok <==> copied == len,
{
}

/// A decoded response gives the guest what the host put in its envelope.
pub proof fn law_the_envelope_is_opened<T>(
    name: &str,
    result: Result<T, CapError>,
    envelope: CapResponse<T>,
    opened: Result<T, CapError>,
)
    requires
        call_ensures(respond::<T>, (result,), envelope),
        call_ensures(on_decoded::<T>, (name, Ok(envelope)), opened),
    ensures
        opened == result,
{
}

/// The outcome of a fetch is the answer to the tool call, as it is.
pub proof fn law_fetched_text_is_the_answer(
    outcome: Result<String, CapError>,
    response: CapResponse<ToolInvokeResponse>,
)
    requires
        call_ensures(fetched, (outcome,), response),
    ensures
        outcome matches Ok(text) ==> response == CapResponse::Success(
            ToolInvokeResponse { content: text },
        ),
        outcome matches Err(error) ==> response == CapResponse::<ToolInvokeResponse>::Failure(error),
{
}

// ---------------------------------------------------------------------------
// Words
// ---------------------------------------------------------------------------

/// What the guest says of an input that it cannot read, of a request that it
/// cannot write, and of a response that it cannot read.
pub proof fn law_the_guest_says_what_it_cannot_do<T>(
    name: &str,
    error: &str,
    rejected: AgentOutput,
    unwritten: CapError,
    complaint: String,
    unread: Result<T, CapError>,
)
    requires
        call_ensures(input_rejected, (error,), rejected),
        call_ensures(unencodable, (name, error), unwritten),
        call_ensures(on_decoded::<T>, (name, Err(complaint)), unread),
    ensures
        rejected.answer@ == "could not parse agent input: "@ + error@,
        rejected.stop == StopReason::Error,
        rejected.steps == 0,
        unwritten.kind@ == "invalid"@,
        unwritten.message@ == "could not encode "@ + name@ + " request: "@ + error@,
        unread is Err,
        unread->Err_0.kind@ == "host"@,
        unread->Err_0.message@ == name@ + ": "@ + ("malformed response: "@ + complaint@),
{
    assert(rejected@.stop == rejected.stop);
}

/// What the host says of a response that it cannot write, of a fetch that failed,
/// and of a model whose answer it cannot read.
pub proof fn law_the_host_says_what_failed(
    error: &str,
    fetch: &HttpFetch,
    exchange: &Exchange,
    unwritten: CapError,
    unsent: CapError,
    unread: CapError,
    malformed: CapError,
)
    requires
        call_ensures(encoding_failure, (error,), unwritten),
        call_ensures(HttpFetch::on_send_error, (fetch, error), unsent),
        call_ensures(HttpFetch::on_body_error, (fetch, error), unread),
        call_ensures(Exchange::on_malformed, (exchange, error), malformed),
    ensures
        unwritten.kind@ == "internal"@,
        unwritten.message@ == "host could not encode its response: "@ + error@,
        unsent.kind@ == "upstream"@,
        unsent.message@ == "GET "@ + fetch.host@ + " failed: "@ + error@,
        unread.kind@ == "upstream"@,
        unread.message@ == "reading response body: "@ + error@,
        malformed.kind@ == "upstream"@,
        malformed.message@ == "malformed model response: "@ + error@,
{
}

/// A check that went well says how many tools are enabled, and whether the key
/// was looked at.
pub proof fn law_a_check_says_what_was_checked(policy: &Policy, text: String, offline: bool)
    requires
        call_ensures(check_text, (policy, offline), text),
    ensures
        offline ==> text@ == "ok: policy valid, agent module accepted ("@ + decimal(
            policy.tools.enabled@.len(),
        ) + " tool(s) enabled"@ + ", credential not checked"@ + ")"@,
        !offline ==> text@ == "ok: policy valid, agent module accepted ("@ + decimal(
            policy.tools.enabled@.len(),
        ) + " tool(s) enabled"@ + ")"@,
{
    reveal_strlit("");
    let head = "ok: policy valid, agent module accepted ("@ + decimal(policy.tools.enabled@.len())
        + " tool(s) enabled"@;
    assert(head + ""@ =~= head);
}

/// A module is let in exactly if it speaks the first version of the ABI, which
/// is the one that the guest speaks.
pub proof fn law_both_sides_speak_one_version(
    version: i32,
    verdict: Result<(), RuntimeError>,
    spoken: i32,
)
    requires
        call_ensures(check_abi_version, (version,), verdict),
        call_ensures(tds_abi_version, (), spoken),
    ensures
        verdict is Ok <==> version == 1,
        spoken == 1,
{
}

/// What stopped a run is told by what the error holds.
pub proof fn law_errors_are_described(error: &anyhow::Error, text: String)
    requires
        call_ensures(describe_trap, (error,), text),
    ensures
        text@ == failure_of(*error).reason(),
{
}

/// A run is reported under the name of its model.
pub proof fn law_models_have_their_names(
    provider: &AnthropicProvider,
    name: String,
    stand_in: String,
)
    requires
        call_ensures(AnthropicProvider::describe, (provider,), name),
        call_ensures(MockProvider::describe, (&MockProvider,), stand_in),
    ensures
        name@ == "anthropic:"@ + provider.config().model@,
        stand_in@ == "mock"@,
{
}

/// Unless it is told otherwise, a policy grants a run a billion units of fuel,
/// two minutes, 64 MiB of memory and eight turns; it asks the API at high effort
/// with adaptive thinking, twice again if that fails; and it enables the clock
/// and the scratchpad, and reaches no host.
pub proof fn law_the_default_policy_is_modest(policy: Policy)
    requires
        call_ensures(Policy::default, (), policy),
    ensures
        policy.valid(),
        policy.limits.fuel == 1_000_000_000,
        policy.limits.wall_clock_ms == 120_000,
        policy.limits.memory_bytes == 67_108_864,
        policy.limits.table_elements == 10_000,
        policy.limits.max_steps == 8,
        policy.limits.max_request_bytes == 4_194_304,
        policy.llm.provider == Provider::Anthropic,
        policy.llm.max_tokens == 8192,
        policy.llm.effort == Effort::High,
        policy.llm.thinking == Thinking::Adaptive,
        !policy.llm.summarize_thinking,
        policy.llm.base_url@ == "https://api.anthropic.com"@,
        policy.llm.api_version@ == "2023-06-01"@,
        policy.llm.api_key_env@ == "ANTHROPIC_API_KEY"@,
        policy.llm.request_timeout_ms == 600_000,
        policy.llm.max_retries == 2,
        policy.llm.server_side_fallback,
        texts(policy.tools.enabled@) == seq!["now"@, "kv_get"@, "kv_put"@],
        forall|host: Seq<char>| !#[trigger] policy.tools.http.covers(host),
        policy.tools.http.max_response_bytes == 65_536,
        policy.tools.http.timeout_ms == 15_000,
        policy.tools.kv.max_keys == 128,
        policy.tools.kv.max_value_bytes == 16_384,
{
}

} // verus!
