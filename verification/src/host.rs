//! The host's side of the sandbox wall: the three functions that a guest can
//! call, and the capabilities behind them.

use std::sync::Arc;

use vstd::prelude::*;
use vstd::string::*;
use vstd::utf8::*;

use crate::abi::{
    denied_error, invalid_error, level_of, not_found_error, tool_views, CapError, CapErrorView, CapResponse,
    LlmRequest, LlmResponse, LogLevel, ToolInvokeRequest, ToolInvokeResponse, ToolsListResponse,
};
use crate::cap::{LLM_COMPLETE, TOOLS_LIST, TOOL_INVOKE};
use crate::error_code::{BAD_POINTER, BAD_REQUEST};
use crate::guest::{in_bounds, memory_view, read, read_guest, write_guest, written};
use crate::json::{is_json, json_bytes, json_tree};
use crate::llm::LlmProvider;
use crate::policy::Policy;
use crate::text::{checked_text, debug_text, decimal, lossy, lossy_text, push_decimal, quoted, same, texts};
use crate::tools::{
    clock_reply, clock_says, described_all, invoked, kv_after, tool_enabled, HttpFetch, ToolBox, ToolReply, ToolReplyView,
};

verus! {

/// The longest part of a log line that is kept, so that a chatty guest cannot
/// exhaust host memory.
pub const MAX_LOG_BYTES: u32 = 8_192;

/// The most log lines that are kept.
pub const MAX_LOG_LINES: usize = 512;

/// The longest capability name that is looked at.
pub const MAX_NAME_BYTES: u32 = 256;

/// One line of a run's log.
#[derive(Debug)]
pub struct LogLine {
    pub level: String,
    pub message: String,
}

/// The contents of a [`LogLine`].
pub struct LogLineView {
    pub level: Seq<char>,
    pub message: Seq<char>,
}

impl View for LogLine {
    type V = LogLineView;

    open spec fn view(&self) -> LogLineView {
        LogLineView { level: self.level@, message: self.message@ }
    }
}

impl Clone for LogLine {
    fn clone(&self) -> (copy: LogLine)
        ensures
            copy@ == self@,
    {
        LogLine { level: self.level.clone(), message: self.message.clone() }
    }
}

/// The contents of each line in order.
pub open spec fn log_views(lines: Seq<LogLine>) -> Seq<LogLineView> {
    lines.map_values(|line: LogLine| line@)
}

/// State the host keeps for a single run.
pub struct HostState<P> {
    llm: P,
    tools: ToolBox,
    /// The response to the most recent capability call, waiting to be read.
    pending: Vec<u8>,
    logs: Vec<LogLine>,
    llm_calls: u32,
}

/// The contents of a [`HostState`].
#[verifier::reject_recursive_types(P)]
pub struct HostView<P> {
    pub llm: P,
    pub policy: Policy,
    pub kv: Map<Seq<char>, Seq<char>>,
    pub pending: Seq<u8>,
    pub logs: Seq<LogLineView>,
    pub llm_calls: u32,
}

impl<P> View for HostState<P> {
    type V = HostView<P>;

    closed spec fn view(&self) -> HostView<P> {
        HostView {
            llm: self.llm,
            policy: self.tools.policy(),
            kv: self.tools.kv(),
            pending: self.pending@,
            logs: log_views(self.logs@),
            llm_calls: self.llm_calls,
        }
    }
}

// ---------------------------------------------------------------------------
// Capability requests and replies
// ---------------------------------------------------------------------------

/// The capability that a name stands for.
#[derive(Debug, Clone, Copy, PartialEq, Eq, Structural)]
pub enum Route {
    ToolsList,
    ToolInvoke,
    LlmComplete,
    Unknown,
}

/// The capability that a name stands for. Anything not listed here does not
/// exist.
pub open spec fn route_of(name: Seq<char>) -> Route {
    if name == TOOLS_LIST@ {
        Route::ToolsList
    } else if name == TOOL_INVOKE@ {
        Route::ToolInvoke
    } else if name == LLM_COMPLETE@ {
        Route::LlmComplete
    } else {
        Route::Unknown
    }
}

pub fn route(name: &str) -> (route: Route)
    ensures
        route == route_of(name@),
{
    if same(name, TOOLS_LIST) {
        Route::ToolsList
    } else if same(name, TOOL_INVOKE) {
        Route::ToolInvoke
    } else if same(name, LLM_COMPLETE) {
        Route::LlmComplete
    } else {
        Route::Unknown
    }
}

/// The body of a capability request.
#[derive(Debug)]
pub enum Payload<T> {
    Decoded(T),
    /// It is JSON, but no such request; with the decoder's complaint.
    WrongShape(String),
    /// It is no JSON at all.
    NotJson,
}

/// What to make of the body of a capability request, given what it was decoded
/// to or the decoder's complaint.
pub open spec fn payload_of<T>(request: Seq<u8>, decoded: Result<T, String>) -> Payload<T> {
    match decoded {
        Ok(value) => Payload::Decoded(value),
        Err(error) => if json_bytes(request) {
            Payload::WrongShape(error)
        } else {
            Payload::NotJson
        },
    }
}

/// What to make of the body of a capability request.
pub fn payload<T>(request: Vec<u8>, decoded: Result<T, String>) -> (payload: Payload<T>)
    ensures
        payload == payload_of(request@, decoded),
{
    match decoded {
        Ok(value) => Payload::Decoded(value),
        Err(error) => if is_json(request) {
            Payload::WrongShape(error)
        } else {
            Payload::NotJson
        },
    }
}

/// A capability request with its body.
#[derive(Debug)]
pub enum CapRequest {
    ToolsList,
    ToolInvoke(Payload<ToolInvokeRequest>),
    LlmComplete(Payload<LlmRequest>),
    /// A capability of this name, which the host does not have.
    Unknown(String),
}

/// The host's answer to a capability request.
#[derive(Debug)]
pub enum CapReply {
    Tools(CapResponse<ToolsListResponse>),
    Tool(CapResponse<ToolInvokeResponse>),
    /// A permitted request to the outside; its outcome is the answer.
    Fetch(HttpFetch),
    Model(CapResponse<LlmResponse>),
    Refused(CapError),
    /// None: the call ends with this code.
    Code(i32),
}

/// The envelope of a result.
pub open spec fn envelope<T>(result: Result<T, CapError>) -> CapResponse<T> {
    match result {
        Ok(value) => CapResponse::Success(value),
        Err(error) => CapResponse::Failure(error),
    }
}

/// Puts a result in its envelope.
pub fn respond<T>(result: Result<T, CapError>) -> (response: CapResponse<T>)
    ensures
        response == envelope(result),
{
    match result {
        Ok(value) => CapResponse::Success(value),
        Err(error) => CapResponse::Failure(error),
    }
}

/// A result comes out of its envelope as it went in.
pub proof fn law_envelope_round_trip<T>(result: Result<T, CapError>, response: CapResponse<T>)
    ensures
        envelope(result).result() == result,
        envelope(response.result()) == response,
{
}

/// The failure to report when a response cannot be encoded.
pub fn encoding_failure(error: &str) -> (failure: CapError)
    ensures
        failure@ == (CapErrorView {
            kind: "internal"@,
            message: "host could not encode its response: "@ + error@,
        }),
{
    let mut message = "host could not encode its response: ".to_string();
    message.append(error);
    CapError::new("internal", message.as_str())
}

/// The answer to a tool call once its fetch has come to an end.
pub fn fetched(outcome: Result<String, CapError>) -> (response: CapResponse<ToolInvokeResponse>)
    ensures
        match outcome {
            Ok(content) => response == CapResponse::Success(ToolInvokeResponse { content }),
            Err(error) => response == CapResponse::<ToolInvokeResponse>::Failure(error),
        },
{
    match outcome {
        Ok(content) => CapResponse::Success(ToolInvokeResponse { content }),
        Err(error) => CapResponse::Failure(error),
    }
}

/// The answer to a tool call whose body is JSON of the wrong shape.
pub open spec fn malformed_invoke(error: Seq<char>) -> CapErrorView {
    invalid_error("malformed tool.invoke request: "@ + error)
}

/// The answer to a completion whose body is JSON of the wrong shape.
pub open spec fn malformed_complete(error: Seq<char>) -> CapErrorView {
    invalid_error("malformed llm.complete request: "@ + error)
}

/// The answer to a completion beyond the last one that the policy allows.
pub open spec fn turns_used_up(allowed: u32) -> CapErrorView {
    denied_error(
        "this run has already used its "@ + decimal(allowed as nat) + " model turns"@,
    )
}

/// The answer to a request for a capability that the host does not have.
pub open spec fn no_capability(name: Seq<char>) -> CapErrorView {
    not_found_error("this host provides no capability named "@ + debug_text(name))
}

/// Whether the answer to a tool call says what the tool replied.
pub open spec fn answers_tool(
    reply: CapReply,
    outcome: Result<ToolReplyView, CapErrorView>,
) -> bool {
    match outcome {
        Ok(ToolReplyView::Text(text)) => {
            &&& reply matches CapReply::Tool(CapResponse::Success(response))
            &&& response.content@ == text
        },
        Ok(ToolReplyView::Fetch(fetch)) => {
            &&& reply matches CapReply::Fetch(request)
            &&& request@ == fetch
        },
        Err(error) => {
            &&& reply matches CapReply::Tool(CapResponse::Failure(failure))
            &&& failure@ == error
        },
    }
}

// ---------------------------------------------------------------------------
// Admission
// ---------------------------------------------------------------------------

/// What becomes of a guest's `call` before its request is decoded.
#[derive(Debug)]
pub enum CallStep {
    /// The call ends with this code.
    Return(i32),
    /// The call is answered with this failure.
    Refuse(CapError),
    /// The request is to be decoded and dispatched.
    Dispatch { name: String, request: Vec<u8> },
}

/// The contents of a [`CallStep`].
pub enum CallStepView {
    Return(i32),
    Refuse(CapErrorView),
    Dispatch { name: Seq<char>, request: Seq<u8> },
}

impl View for CallStep {
    type V = CallStepView;

    open spec fn view(&self) -> CallStepView {
        match self {
            CallStep::Return(code) => CallStepView::Return(*code),
            CallStep::Refuse(error) => CallStepView::Refuse(error@),
            CallStep::Dispatch { name, request } => CallStepView::Dispatch {
                name: name@,
                request: request@,
            },
        }
    }
}

/// The answer to a request that is too long.
pub open spec fn request_too_long(len: u32, max: usize) -> CapErrorView {
    invalid_error(
        "capability request of "@ + decimal(len as nat) + " bytes exceeds the "@ + decimal(
            max as nat,
        ) + " byte limit"@,
    )
}

/// What becomes of a guest's `call` before its request is decoded.
pub open spec fn admitted(
    max: usize,
    memory: Option<Seq<u8>>,
    name_ptr: u32,
    name_len: u32,
    req_ptr: u32,
    req_len: u32,
) -> CallStepView {
    if req_len > max || name_len > MAX_NAME_BYTES {
        CallStepView::Refuse(request_too_long(req_len, max))
    } else {
        match (read(memory, name_ptr, name_len), read(memory, req_ptr, req_len)) {
            (Some(name), Some(request)) => if valid_utf8(name) {
                CallStepView::Dispatch { name: decode_utf8(name), request }
            } else {
                CallStepView::Return(BAD_REQUEST)
            },
            _ => CallStepView::Return(BAD_POINTER),
        }
    }
}

/// What a guest's `response_read` does to the pending response, and what it
/// returns.
pub open spec fn handed_over(
    pending: Seq<u8>,
    size: Option<nat>,
    ptr: u32,
    len: u32,
) -> (Seq<u8>, i32) {
    if pending.len() != len {
        (pending, BAD_REQUEST)
    } else if size is Some && in_bounds(size->Some_0, ptr, pending.len()) {
        (Seq::empty(), len as i32)
    } else {
        (Seq::empty(), BAD_POINTER)
    }
}

impl<P: LlmProvider> HostState<P> {
    /// The log and the scratchpad are within their caps, and no more model turns
    /// are used than the policy allows.
    pub closed spec fn wf(self) -> bool {
        &&& self.tools.wf()
        &&& self.logs@.len() <= MAX_LOG_LINES
        &&& self.llm_calls <= self.tools.policy().limits.max_steps
    }

    /// The caps hold in every state of a run: on model turns, on log lines, and
    /// on the keys and the values of the scratchpad.
    pub proof fn law_caps_hold(self)
        requires
            self.wf(),
        ensures
            self@.llm_calls <= self@.policy.limits.max_steps,
            self@.logs.len() <= MAX_LOG_LINES,
            self@.kv.len() <= self@.policy.tools.kv.max_keys,
            forall|key: Seq<char>| #[trigger]
                self@.kv.contains_key(key) ==> crate::text::byte_len(self@.kv[key])
                    <= self@.policy.tools.kv.max_value_bytes,
    {
        self.tools.law_caps_hold();
    }

    /// The state at the start of a run. Nothing is carried over from another run.
    pub fn new(policy: Arc<Policy>, llm: P) -> (host: HostState<P>)
        ensures
            host.wf(),
            host@ == (HostView {
                llm,
                policy: *policy,
                kv: Map::empty(),
                pending: Seq::empty(),
                logs: Seq::empty(),
                llm_calls: 0,
            }),
    {
        let host = HostState {
            llm,
            tools: ToolBox::new(policy),
            pending: Vec::new(),
            logs: Vec::new(),
            llm_calls: 0,
        };
        proof {
            assert(host@.logs =~= Seq::empty());
        }
        host
    }

    /// The guest's `log`: keeps a line, as long as there is room, and hands it
    /// back. A line outside the guest's memory is dropped.
    pub fn log(&mut self, memory: Option<&[u8]>, level: i32, ptr: u32, len: u32) -> (line: Option<
        LogLine,
    >)
        requires
            old(self).wf(),
        ensures
            final(self).wf(),
            ({
                let len = if len < MAX_LOG_BYTES {
                    len
                } else {
                    MAX_LOG_BYTES
                };
                match read(memory_view(memory), ptr, len) {
                    Some(bytes) => {
                        let kept = LogLineView {
                            level: level_of(level).label(),
                            message: lossy_text(bytes),
                        };
                        &&& line is Some
                        &&& line->Some_0@ == kept
                        &&& valid_utf8(bytes) ==> kept.message == decode_utf8(bytes)
                        &&& final(self)@ == (HostView {
                            logs: if old(self)@.logs.len() < MAX_LOG_LINES {
                                old(self)@.logs.push(kept)
                            } else {
                                old(self)@.logs
                            },
                            ..old(self)@
                        })
                    },
                    None => line is None && final(self)@ == old(self)@,
                }
            }),
    {
        let len: u32 = if len < MAX_LOG_BYTES {
            len
        } else {
            MAX_LOG_BYTES
        };
        let bytes = match read_guest(memory, ptr, len) {
            Some(bytes) => bytes,
            None => {
                return None;
            },
        };
        let level = LogLevel::from_i32(level);
        let line = LogLine {
            level: level.as_str().to_string(),
            message: lossy(bytes.as_slice()),
        };
        if self.logs.len() < MAX_LOG_LINES {
            let ghost before = self.logs@;
            let kept = line.clone();
            self.logs.push(kept);
            proof {
                assert(log_views(self.logs@) =~= log_views(before).push(line@));
            }
        }
        Some(line)
    }

    /// The first half of the guest's `call`: decides whether the request is
    /// looked at, and copies it out of the guest's memory.
    pub fn admit_call(
        &self,
        memory: Option<&[u8]>,
        name_ptr: u32,
        name_len: u32,
        req_ptr: u32,
        req_len: u32,
    ) -> (step: CallStep)
        ensures
            step@ == admitted(
                self@.policy.limits.max_request_bytes,
                memory_view(memory),
                name_ptr,
                name_len,
                req_ptr,
                req_len,
            ),
    {
        let max: usize = self.tools.policy_ref().limits.max_request_bytes;
        if req_len as usize > max || name_len > MAX_NAME_BYTES {
            let mut message = "capability request of ".to_string();
            push_decimal(&mut message, req_len as u128);
            message.append(" bytes exceeds the ");
            push_decimal(&mut message, max as u128);
            message.append(" byte limit");
            return CallStep::Refuse(CapError::invalid(message.as_str()));
        }
        let name_bytes = match read_guest(memory, name_ptr, name_len) {
            Some(bytes) => bytes,
            None => {
                return CallStep::Return(BAD_POINTER);
            },
        };
        let request = match read_guest(memory, req_ptr, req_len) {
            Some(bytes) => bytes,
            None => {
                return CallStep::Return(BAD_POINTER);
            },
        };
        match checked_text(name_bytes) {
            Some(name) => CallStep::Dispatch { name, request },
            None => CallStep::Return(BAD_REQUEST),
        }
    }

    /// The second half of the guest's `call`: answers a request. A body that is no
    /// JSON is answered with a code, and all else in an envelope. The guest counts
    /// its own model turns, but the host does not take its word for it: this is
    /// the ceiling that actually binds.
    pub fn dispatch(&mut self, request: CapRequest) -> (reply: CapReply)
        requires
            old(self).wf(),
        ensures
            final(self).wf(),
            match request {
                CapRequest::ToolsList => {
                    &&& final(self)@ == old(self)@
                    &&& reply matches CapReply::Tools(CapResponse::Success(list))
                    &&& tool_views(list.tools@) == described_all(
                        texts(old(self)@.policy.tools.enabled@),
                    )
                },
                CapRequest::ToolInvoke(Payload::NotJson) => {
                    &&& final(self)@ == old(self)@
                    &&& reply == CapReply::Code(BAD_REQUEST)
                },
                CapRequest::ToolInvoke(Payload::WrongShape(error)) => {
                    &&& final(self)@ == old(self)@
                    &&& reply matches CapReply::Tool(CapResponse::Failure(failure))
                    &&& failure@ == malformed_invoke(error@)
                },
                CapRequest::ToolInvoke(Payload::Decoded(call)) => {
                    &&& final(self)@ == (HostView {
                        kv: kv_after(
                            old(self)@.policy,
                            old(self)@.kv,
                            call.name@,
                            json_tree(call.input),
                        ),
                        ..old(self)@
                    })
                    &&& if call.name@ == "now"@ && tool_enabled(
                        old(self)@.policy,
                        call.name@,
                    ) {
                        &&& reply matches CapReply::Tool(CapResponse::Success(response))
                        &&& clock_says(response.content@)
                        &&& clock_reply(response.content@)
                    } else {
                        answers_tool(
                            reply,
                            invoked(
                                old(self)@.policy,
                                old(self)@.kv,
                                call.name@,
                                json_tree(call.input),
                            ),
                        )
                    }
                },
                CapRequest::LlmComplete(body) => if old(self)@.llm_calls
                    >= old(self)@.policy.limits.max_steps {
                    &&& final(self)@ == old(self)@
                    &&& reply matches CapReply::Model(CapResponse::Failure(failure))
                    &&& failure@ == turns_used_up(old(self)@.policy.limits.max_steps)
                } else {
                    match body {
                        Payload::NotJson => {
                            &&& final(self)@ == old(self)@
                            &&& reply == CapReply::Code(BAD_REQUEST)
                        },
                        Payload::WrongShape(error) => {
                            &&& final(self)@ == old(self)@
                            &&& reply matches CapReply::Model(CapResponse::Failure(failure))
                            &&& failure@ == malformed_complete(error@)
                        },
                        Payload::Decoded(turn) => {
                            &&& final(self)@ == (HostView {
                                llm_calls: (old(self)@.llm_calls + 1) as u32,
                                ..old(self)@
                            })
                            &&& reply matches CapReply::Model(response)
                            &&& call_ensures(
                                P::complete,
                                (&old(self)@.llm, &turn),
                                response.result(),
                            )
                        },
                    }
                },
                CapRequest::Unknown(name) => {
                    &&& final(self)@ == old(self)@
                    &&& reply matches CapReply::Refused(failure)
                    &&& failure@ == no_capability(name@)
                },
            },
    {
        match request {
            CapRequest::ToolsList => {
                let tools = self.tools.specs();
                CapReply::Tools(respond(Ok(ToolsListResponse { tools })))
            },
            CapRequest::ToolInvoke(Payload::Decoded(call)) => match self.tools.invoke(
                call.name.as_str(),
                &call.input,
            ) {
                Ok(ToolReply::Text(content)) => CapReply::Tool(
                    respond(Ok(ToolInvokeResponse { content })),
                ),
                Ok(ToolReply::Fetch(fetch)) => CapReply::Fetch(fetch),
                Err(error) => CapReply::Tool(respond(Err(error))),
            },
            CapRequest::ToolInvoke(Payload::NotJson) => CapReply::Code(BAD_REQUEST),
            CapRequest::ToolInvoke(Payload::WrongShape(error)) => {
                let mut message = "malformed tool.invoke request: ".to_string();
                message.append(error.as_str());
                CapReply::Tool(respond(Err(CapError::invalid(message.as_str()))))
            },
            CapRequest::LlmComplete(body) => {
                let allowed: u32 = self.tools.policy_ref().limits.max_steps;
                if self.llm_calls >= allowed {
                    let mut message = "this run has already used its ".to_string();
                    push_decimal(&mut message, allowed as u128);
                    message.append(" model turns");
                    return CapReply::Model(respond(Err(CapError::denied(message.as_str()))));
                }
                match body {
                    Payload::Decoded(turn) => {
                        self.llm_calls = self.llm_calls + 1;
                        CapReply::Model(respond(self.llm.complete(&turn)))
                    },
                    Payload::NotJson => CapReply::Code(BAD_REQUEST),
                    Payload::WrongShape(error) => {
                        let mut message = "malformed llm.complete request: ".to_string();
                        message.append(error.as_str());
                        CapReply::Model(respond(Err(CapError::invalid(message.as_str()))))
                    },
                }
            },
            CapRequest::Unknown(name) => {
                let mut message = "this host provides no capability named ".to_string();
                message.append(quoted(name.as_str()).as_str());
                CapReply::Refused(CapError::not_found(message.as_str()))
            },
        }
    }

    /// Ends the guest's `call`: keeps the encoded response for the guest to read
    /// and returns its length.
    pub fn deliver(&mut self, response: Vec<u8>) -> (code: i32)
        requires
            old(self).wf(),
        ensures
            final(self).wf(),
            final(self)@ == (HostView { pending: response@, ..old(self)@ }),
            code == response@.len() as i32,
    {
        let code: i32 = #[verifier::truncate] (response.len() as i32);
        self.pending = response;
        code
    }

    /// The guest's `response_read`: moves the pending response into the guest's
    /// memory. A guest that does not know the response's length learns nothing
    /// and loses nothing; a guest that asks for it elsewhere than in its own
    /// memory loses it.
    pub fn response_read(&mut self, memory: Option<&mut [u8]>, ptr: u32, len: u32) -> (code: i32)
        requires
            old(self).wf(),
        ensures
            final(self).wf(),
            ({
                let size = match memory {
                    Some(data) => Some((*data)@.len()),
                    None => None,
                };
                let (pending, expected) = handed_over(old(self)@.pending, size, ptr, len);
                &&& code == expected
                &&& final(self)@ == (HostView { pending, ..old(self)@ })
            }),
            match memory {
                Some(data) => final(data)@ == (if old(self)@.pending.len() == len && in_bounds(
                    (*data)@.len(),
                    ptr,
                    len as nat,
                ) {
                    written((*data)@, ptr, old(self)@.pending)
                } else {
                    (*data)@
                }),
                None => true,
            },
    {
        if self.pending.len() != len as usize {
            return BAD_REQUEST;
        }
        let mut pending: Vec<u8> = Vec::new();
        std::mem::swap(&mut pending, &mut self.pending);
        if write_guest(memory, ptr, pending.as_slice()) {
            #[verifier::truncate] (len as i32)
        } else {
            BAD_POINTER
        }
    }

    /// The log so far.
    pub fn take_logs(&mut self) -> (logs: Vec<LogLine>)
        requires
            old(self).wf(),
        ensures
            final(self).wf(),
            log_views(logs@) == old(self)@.logs,
            final(self)@ == (HostView { logs: Seq::empty(), ..old(self)@ }),
    {
        let mut logs: Vec<LogLine> = Vec::new();
        std::mem::swap(&mut logs, &mut self.logs);
        proof {
            assert(log_views(self.logs@) =~= Seq::empty());
        }
        logs
    }

    /// The name under which the run is reported.
    pub fn describe_model(&self) -> (name: String)
        ensures
            call_ensures(P::describe, (&self@.llm,), name),
    {
        self.llm.describe()
    }
}

// ---------------------------------------------------------------------------
// Laws
// ---------------------------------------------------------------------------

/// A guest that asks for a delivered response by its length, for a place inside
/// its own memory, finds the response there and is told the length; the response
/// is then gone.
pub proof fn law_delivered_response_is_read_back(
    response: Seq<u8>,
    memory: Seq<u8>,
    ptr: u32,
)
    requires
        response.len() <= i32::MAX,
        in_bounds(memory.len(), ptr, response.len()),
    ensures
        handed_over(response, Some(memory.len()), ptr, response.len() as u32) == (
            Seq::<u8>::empty(),
            response.len() as i32,
        ),
        read(Some(written(memory, ptr, response)), ptr, response.len() as u32) == Some(response),
{
    crate::guest::law_read_gives_back_what_was_written(memory, ptr, response);
}

/// A response can be read once: after it was handed over, a read of any length
/// but zero is refused.
pub proof fn law_response_is_read_once(
    pending: Seq<u8>,
    size: Option<nat>,
    ptr: u32,
    len: u32,
    next_ptr: u32,
    next_len: u32,
)
    requires
        pending.len() == len,
        next_len != 0,
    ensures
        handed_over(handed_over(pending, size, ptr, len).0, size, next_ptr, next_len).1
            == BAD_REQUEST,
{
}

/// The code of a refused `call` or `response_read` cannot be taken for the
/// length of a response.
pub proof fn law_codes_are_no_lengths(len: nat)
    requires
        len <= i32::MAX,
    ensures
        len as i32 != BAD_POINTER,
        len as i32 != BAD_REQUEST,
        len as i32 != crate::error_code::INTERNAL,
{
}

/// The host never looks at a request longer than the policy allows, nor at one
/// that is not wholly inside the guest's memory.
pub proof fn law_dispatched_requests_are_in_bounds(
    max: usize,
    memory: Option<Seq<u8>>,
    name_ptr: u32,
    name_len: u32,
    req_ptr: u32,
    req_len: u32,
)
    requires
        admitted(max, memory, name_ptr, name_len, req_ptr, req_len) is Dispatch,
    ensures
        req_len <= max,
        name_len <= MAX_NAME_BYTES,
        memory is Some,
        in_bounds(memory->Some_0.len(), req_ptr, req_len as nat),
        in_bounds(memory->Some_0.len(), name_ptr, name_len as nat),
{
}

} // verus!
