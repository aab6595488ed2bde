//! What crosses the sandbox wall, in terms of the guest's memory and of what is
//! asked and answered.

use vstd::prelude::*;
use vstd::utf8::*;

use crate::abi::{
    failed_output, level_of, packed, unpacked, AgentOutputView, CapError, CapErrorView, CapResponse, LogLevel,
    StopReason, Usage,
};
use crate::exports::{
    alloc_plan, backed, call_failure, call_outcome, handed, AllocPlan, CallOutcomeView,
};
use crate::guest::{in_bounds, read, written};
use crate::host::{
    admitted, answers_tool, envelope, handed_over, malformed_complete, malformed_invoke, no_capability, payload_of,
    route_of, turns_used_up, CallStepView, CapReply, Payload, Route,
};
use crate::json::json_of;
use crate::text::{debug_text, decimal};
use crate::tools::ToolReplyView;

verus! {

// ---------------------------------------------------------------------------
// Memory
// ---------------------------------------------------------------------------

/// A range is read exactly if it lies inside the memory, to its last byte; what
/// is read is then the bytes of the range, each of them, in order.
pub proof fn law_a_read_gives_the_bytes_of_the_range(memory: Seq<u8>, ptr: u32, len: u32)
    ensures
        read(Some(memory), ptr, len) is Some <==> ptr + len <= memory.len(),
        read(Some(memory), ptr, len) matches Some(bytes) ==> {
            &&& bytes.len() == len
            &&& forall|i: int| 0 <= i < len ==> #[trigger] bytes[i] == memory[ptr + i]
        },
        read(None, ptr, len) is None,
{
}

/// A write puts each byte at its place.
pub proof fn law_a_write_puts_each_byte_at_its_place(memory: Seq<u8>, ptr: u32, bytes: Seq<u8>)
    requires
        ptr + bytes.len() <= memory.len(),
    ensures
        written(memory, ptr, bytes).len() == memory.len(),
        forall|i: int|
            0 <= i < memory.len() ==> #[trigger] written(memory, ptr, bytes)[i] == if ptr <= i < ptr
                + bytes.len() {
                bytes[i - ptr]
            } else {
                memory[i]
            },
        in_bounds(memory.len(), ptr, bytes.len()),
{
}

// ---------------------------------------------------------------------------
// Calls
// ---------------------------------------------------------------------------

/// A call is dispatched whenever its request is no longer than the policy
/// allows, its name no longer than 256 bytes, both inside the guest's memory, and
/// the name valid UTF-8. What is dispatched is the name and the request: all of
/// their bytes, and no others.
pub proof fn law_calls_within_the_limits_are_dispatched(
    max: usize,
    memory: Seq<u8>,
    name_ptr: u32,
    name_len: u32,
    req_ptr: u32,
    req_len: u32,
)
    requires
        req_len <= max,
        name_len <= 256,
        name_ptr + name_len <= memory.len(),
        req_ptr + req_len <= memory.len(),
        valid_utf8(memory.subrange(name_ptr as int, name_ptr + name_len)),
    ensures
        admitted(max, Some(memory), name_ptr, name_len, req_ptr, req_len) == (
        CallStepView::Dispatch {
            name: decode_utf8(memory.subrange(name_ptr as int, name_ptr + name_len)),
            request: memory.subrange(req_ptr as int, req_ptr + req_len),
        }),
{
}

/// Any other call is refused: one that is too long in words, before its memory
/// is looked at; one outside the memory, or whose name is no UTF-8, with a code.
pub proof fn law_other_calls_are_refused(
    max: usize,
    memory: Option<Seq<u8>>,
    name_ptr: u32,
    name_len: u32,
    req_ptr: u32,
    req_len: u32,
)
    ensures
        ({
            let step = admitted(max, memory, name_ptr, name_len, req_ptr, req_len);
            let inside = memory is Some && name_ptr + name_len <= memory->Some_0.len() && req_ptr
                + req_len <= memory->Some_0.len();
            if req_len > max || name_len > 256 {
                step == CallStepView::Refuse(
                    CapErrorView {
                        kind: "invalid"@,
                        message: "capability request of "@ + decimal(req_len as nat)
                            + " bytes exceeds the "@ + decimal(max as nat) + " byte limit"@,
                    },
                )
            } else if !inside {
                step == CallStepView::Return(-1i32)
            } else {
                valid_utf8(memory->Some_0.subrange(name_ptr as int, name_ptr + name_len)) || step
                    == CallStepView::Return(-2i32)
            }
        }),
{
}

/// A name stands for the capability that it spells, and for none if it spells
/// none.
pub proof fn law_names_are_routed(name: Seq<char>)
    ensures
        route_of(name) == Route::ToolsList <==> name == "tools.list"@,
        route_of(name) == Route::ToolInvoke <==> name == "tool.invoke"@,
        route_of(name) == Route::LlmComplete <==> name == "llm.complete"@,
        route_of(name) == Route::Unknown <==> name != "tools.list"@ && name != "tool.invoke"@ && name
            != "llm.complete"@,
{
    reveal_strlit("tools.list");
    reveal_strlit("tool.invoke");
    reveal_strlit("llm.complete");
    assert("tools.list"@.len() == 10);
    assert("tool.invoke"@.len() == 11);
    assert("llm.complete"@.len() == 12);
}

/// A request that was decoded is taken as it is. One that was not is of the
/// wrong shape if its bytes spell a JSON value, and no JSON if they do not.
pub proof fn law_requests_are_told_from_noise<T>(
    request: Seq<u8>,
    decoded: Result<T, String>,
)
    ensures
        match decoded {
            Ok(value) => payload_of(request, decoded) == Payload::Decoded(value),
            Err(error) => {
                &&& payload_of(request, decoded) == Payload::<T>::WrongShape(error) <==> valid_utf8(
                    request,
                ) && json_of(decode_utf8(request)) is Some
                &&& payload_of(request, decoded) == Payload::<T>::NotJson <==> !(valid_utf8(request)
                    && json_of(decode_utf8(request)) is Some)
            },
        },
{
}

/// A result is put in the envelope of its kind, and taken out as it went in.
pub proof fn law_results_keep_their_kind<T>(value: T, error: CapError)
    ensures
        envelope(Ok::<T, CapError>(value)) == CapResponse::Success(value),
        envelope(Err::<T, CapError>(error)) == CapResponse::<T>::Failure(error),
        CapResponse::Success(value).result() == Ok::<T, CapError>(value),
        CapResponse::<T>::Failure(error).result() == Err::<T, CapError>(error),
{
}

/// What the host answers when it does not do what it is asked: the kind of the
/// failure, and in words what is wrong.
pub proof fn law_refusals_say_what_is_wrong(error: Seq<char>, allowed: u32, name: Seq<char>)
    ensures
        malformed_invoke(error) == (CapErrorView {
            kind: "invalid"@,
            message: "malformed tool.invoke request: "@ + error,
        }),
        malformed_complete(error) == (CapErrorView {
            kind: "invalid"@,
            message: "malformed llm.complete request: "@ + error,
        }),
        turns_used_up(allowed) == (CapErrorView {
            kind: "denied"@,
            message: "this run has already used its "@ + decimal(allowed as nat) + " model turns"@,
        }),
        no_capability(name) == (CapErrorView {
            kind: "not_found"@,
            message: "this host provides no capability named "@ + debug_text(name),
        }),
{
}

/// The answer to a tool call is what the tool said, whole, or what is to be
/// fetched, or the tool's own failure.
pub proof fn law_a_tool_answers_for_itself(
    reply: CapReply,
    outcome: Result<ToolReplyView, CapErrorView>,
)
    requires
        answers_tool(reply, outcome),
    ensures
        outcome matches Ok(ToolReplyView::Text(text)) ==> {
            &&& reply matches CapReply::Tool(CapResponse::Success(response))
            &&& response.content@ == text
        },
        outcome matches Ok(ToolReplyView::Fetch(fetch)) ==> {
            &&& reply matches CapReply::Fetch(request)
            &&& request.url@ == fetch.url
            &&& request.host@ == fetch.host
            &&& request.limit == fetch.limit
        },
        outcome matches Err(error) ==> {
            &&& reply matches CapReply::Tool(CapResponse::Failure(failure))
            &&& failure.kind@ == error.kind
            &&& failure.message@ == error.message
        },
{
}

// ---------------------------------------------------------------------------
// Responses
// ---------------------------------------------------------------------------

/// What becomes of a response when the guest asks for it. A guest that names
/// another length is refused, and the response waits. A guest that names the
/// right length gets it, if there is room for it in its memory, and is told the
/// length; if there is none, the response is gone.
pub proof fn law_a_response_waits_for_its_length(
    pending: Seq<u8>,
    size: Option<nat>,
    ptr: u32,
    len: u32,
)
    ensures
        pending.len() != len ==> handed_over(pending, size, ptr, len) == (pending, -2i32),
        pending.len() == len && size is Some && ptr + len <= size->Some_0 ==> handed_over(
            pending,
            size,
            ptr,
            len,
        ) == (Seq::<u8>::empty(), len as i32),
        pending.len() == len && !(size is Some && ptr + len <= size->Some_0) ==> handed_over(
            pending,
            size,
            ptr,
            len,
        ) == (Seq::<u8>::empty(), -1i32),
{
}

/// How a guest takes what a call returned: a length as that many bytes to read,
/// zero as nothing to read, and a code as a failure, in words.
pub proof fn law_a_guest_tells_lengths_from_codes(name: Seq<char>, code: i32)
    ensures
        code > 0 ==> call_outcome(name, code) == CallOutcomeView::Read(code as u32),
        code == 0 ==> call_outcome(name, code) == CallOutcomeView::Empty,
        code < 0 ==> call_outcome(name, code) == CallOutcomeView::Failed(
            CapErrorView {
                kind: "host"@,
                message: name + ": "@ + (if code == -1 {
                    "host rejected a memory reference"@
                } else if code == -2 {
                    "host could not decode the request"@
                } else if code == -3 {
                    "host failed internally"@
                } else {
                    "unknown host failure"@
                }),
            },
        ),
{
}

/// A guest's own complaint about a call names the call.
pub proof fn law_a_failed_call_is_named(name: Seq<char>, what: Seq<char>)
    ensures
        call_failure(name, what) == (CapErrorView {
            kind: "host"@,
            message: name + ": "@ + what,
        }),
{
}

// ---------------------------------------------------------------------------
// The guest's memory, handed out and taken back
// ---------------------------------------------------------------------------

/// A guest sets memory aside for every request but one for nothing, and as much
/// as is asked for; it takes back whatever has memory behind it.
pub proof fn law_memory_is_set_aside_as_asked(ptr: u32, len: u32)
    ensures
        len > 0 ==> alloc_plan(len) == AllocPlan::Allocate(len),
        alloc_plan(0) == AllocPlan::Answer(1),
        backed(ptr, len) <==> ptr > 1 && len > 0,
{
}

/// A place and a length are handed to the host as one number: the place in the
/// upper half, the length in the lower; and as zero if there is no place.
pub proof fn law_a_buffer_is_handed_over_as_one_number(ptr: u32, len: u32)
    ensures
        packed(ptr, len) == ptr * 4_294_967_296 + len,
        unpacked(packed(ptr, len) as u64).0 == ptr,
        unpacked(packed(ptr, len) as u64).1 == len,
        ptr != 0 ==> handed(ptr, len) == packed(ptr, len),
        ptr == 0 ==> handed(ptr, len) == 0,
{
}

// ---------------------------------------------------------------------------
// Shared values
// ---------------------------------------------------------------------------

/// The numbers of the levels, and their names.
pub proof fn law_levels_are_numbered(v: i32)
    ensures
        level_of(v) == LogLevel::Debug <==> v == 0,
        level_of(v) == LogLevel::Warn <==> v == 2,
        level_of(v) == LogLevel::Error <==> v == 3,
        level_of(v) == LogLevel::Info <==> v != 0 && v != 2 && v != 3,
        level_of(v).label() == if v == 0 {
            "debug"@
        } else if v == 2 {
            "warn"@
        } else if v == 3 {
            "error"@
        } else {
            "info"@
        },
{
}

/// A failure in one line is its kind and its message.
pub proof fn law_a_failure_is_read_in_one_line(error: CapErrorView)
    ensures
        error.line() == error.kind + ": "@ + error.message,
{
}

/// Tokens are added to tokens of their sort.
pub proof fn law_tokens_add_up(usage: Usage, other: Usage)
    ensures
        usage.fits(other) <==> usage.input_tokens + other.input_tokens <= u64::MAX
            && usage.output_tokens + other.output_tokens <= u64::MAX,
        usage.fits(other) ==> usage.plus(other).input_tokens == usage.input_tokens
            + other.input_tokens && usage.plus(other).output_tokens == usage.output_tokens
            + other.output_tokens,
{
}

/// A run that failed before its first turn reports the failure and nothing else.
pub proof fn law_a_failed_run_reports_the_failure(answer: Seq<char>)
    ensures
        failed_output(answer) == (AgentOutputView {
            answer,
            steps: 0,
            stop: StopReason::Error,
            tool_calls: Seq::empty(),
            usage: Usage { input_tokens: 0, output_tokens: 0 },
        }),
{
}

} // verus!
