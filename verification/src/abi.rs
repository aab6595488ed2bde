//! The ABI that the guest agent and the host runtime share.
//!
//! The guest has no ambient authority: it cannot open sockets, read files, or
//! read the clock. Everything it needs arrives through capability requests that
//! the host authorizes against a policy.

use vstd::prelude::*;
use vstd::string::*;

use crate::json::{json_tree, JsonTree};
use crate::text::{join, joined, opt_text, texts, trim, trim_text};

verus! {

/// Version of this ABI. The host refuses to run a guest that disagrees.
pub const ABI_VERSION: i32 = 1;

/// Name of the import module the host exposes to the guest.
pub const HOST_MODULE: &'static str = "tds_host";

/// Severity levels of the guest's log lines.
#[derive(Debug, Clone, Copy, PartialEq, Eq, Structural)]
pub enum LogLevel {
    Debug,
    Info,
    Warn,
    Error,
}

/// The level that a number on the wire stands for; an unknown number is taken
/// for an informational line.
pub open spec fn level_of(v: i32) -> LogLevel {
    if v == 0 {
        LogLevel::Debug
    } else if v == 2 {
        LogLevel::Warn
    } else if v == 3 {
        LogLevel::Error
    } else {
        LogLevel::Info
    }
}

impl LogLevel {
    /// The number that stands for a level on the wire.
    pub open spec fn number(self) -> i32 {
        match self {
            LogLevel::Debug => 0,
            LogLevel::Info => 1,
            LogLevel::Warn => 2,
            LogLevel::Error => 3,
        }
    }

    /// The level's name.
    pub open spec fn label(self) -> Seq<char> {
        match self {
            LogLevel::Debug => "debug"@,
            LogLevel::Info => "info"@,
            LogLevel::Warn => "warn"@,
            LogLevel::Error => "error"@,
        }
    }

    pub fn from_i32(v: i32) -> (level: LogLevel)
        ensures
            level == level_of(v),
    {
        match v {
            0 => LogLevel::Debug,
            2 => LogLevel::Warn,
            3 => LogLevel::Error,
            _ => LogLevel::Info,
        }
    }

    pub fn to_i32(self) -> (v: i32)
        ensures
            v == self.number(),
    {
        match self {
            LogLevel::Debug => 0,
            LogLevel::Info => 1,
            LogLevel::Warn => 2,
            LogLevel::Error => 3,
        }
    }

    pub fn as_str(self) -> (name: &'static str)
        ensures
            name@ == self.label(),
    {
        match self {
            LogLevel::Debug => "debug",
            LogLevel::Info => "info",
            LogLevel::Warn => "warn",
            LogLevel::Error => "error",
        }
    }
}

/// A level survives the wire.
pub proof fn law_level_round_trip(level: LogLevel)
    ensures
        level_of(level.number()) == level,
{
}

// ---------------------------------------------------------------------------
// Pointer and length in one number
// ---------------------------------------------------------------------------

/// The number whose upper half is a pointer and whose lower half is a length.
pub open spec fn packed(ptr: u32, len: u32) -> int {
    ptr * 0x1_0000_0000 + len
}

/// The upper and the lower half of a number.
pub open spec fn unpacked(both: u64) -> (u32, u32) {
    ((both / 0x1_0000_0000) as u32, (both % 0x1_0000_0000) as u32)
}

/// Pack a guest pointer and length into the single number that `tds_run` returns.
pub fn pack_ptr_len(ptr: u32, len: u32) -> (both: u64)
    ensures
        both == packed(ptr, len),
{
    proof {
        let p: u64 = ptr as u64;
        let l: u64 = len as u64;
        assert((p << 32) | l == p * 0x1_0000_0000 + l) by (bit_vector)
            requires
                p <= 0xffff_ffff,
                l <= 0xffff_ffff,
        ;
    }
    ((ptr as u64) << 32) | (len as u64)
}

/// Inverse of [`pack_ptr_len`].
pub fn unpack_ptr_len(both: u64) -> (parts: (u32, u32))
    ensures
        parts == unpacked(both),
        packed(parts.0, parts.1) == both,
{
    proof {
        assert((both >> 32) == both / 0x1_0000_0000) by (bit_vector);
        assert((both & 0xffff_ffff) == both % 0x1_0000_0000) by (bit_vector);
    }
    ((both >> 32) as u32, (both & 0xffff_ffff) as u32)
}

/// A pointer and a length come out of a number as they went in, and no two pairs
/// share a number.
pub proof fn law_pack_round_trip(ptr: u32, len: u32)
    ensures
        packed(ptr, len) <= u64::MAX,
        unpacked(packed(ptr, len) as u64) == (ptr, len),
        forall|other_ptr: u32, other_len: u32| #[trigger]
            packed(other_ptr, other_len) == packed(ptr, len) ==> other_ptr == ptr && other_len
                == len,
{
}

// ---------------------------------------------------------------------------
// Capability envelope
// ---------------------------------------------------------------------------

/// Every capability call resolves to exactly one of these.
#[derive(Debug, Clone)]
pub enum CapResponse<T> {
    Success(T),
    Failure(CapError),
}

impl<T> CapResponse<T> {
    /// What the envelope says.
    pub open spec fn result(self) -> Result<T, CapError> {
        match self {
            CapResponse::Success(v) => Ok(v),
            CapResponse::Failure(e) => Err(e),
        }
    }

    pub fn into_result(self) -> (result: Result<T, CapError>)
        ensures
            result == self.result(),
    {
        match self {
            CapResponse::Success(v) => Ok(v),
            CapResponse::Failure(e) => Err(e),
        }
    }
}

/// A capability failure the agent is expected to handle, not crash on.
#[derive(Debug)]
pub struct CapError {
    /// Stable machine-readable kind, e.g. `denied`, `not_found`, `upstream`.
    pub kind: String,
    pub message: String,
}

/// The contents of a [`CapError`].
pub struct CapErrorView {
    pub kind: Seq<char>,
    pub message: Seq<char>,
}

impl View for CapError {
    type V = CapErrorView;

    open spec fn view(&self) -> CapErrorView {
        CapErrorView { kind: self.kind@, message: self.message@ }
    }
}

impl CapErrorView {
    /// The error as one line of text.
    pub open spec fn line(self) -> Seq<char> {
        self.kind + ": "@ + self.message
    }
}

/// An action the policy forbids.
pub open spec fn denied_error(message: Seq<char>) -> CapErrorView {
    CapErrorView { kind: "denied"@, message }
}

/// Something that does not exist.
pub open spec fn not_found_error(message: Seq<char>) -> CapErrorView {
    CapErrorView { kind: "not_found"@, message }
}

/// A failure on the far side of the host.
pub open spec fn upstream_error(message: Seq<char>) -> CapErrorView {
    CapErrorView { kind: "upstream"@, message }
}

/// A request that makes no sense.
pub open spec fn invalid_error(message: Seq<char>) -> CapErrorView {
    CapErrorView { kind: "invalid"@, message }
}

/// A failure of the host itself.
pub open spec fn host_error(message: Seq<char>) -> CapErrorView {
    CapErrorView { kind: "host"@, message }
}

impl CapError {
    pub fn new(kind: &str, message: &str) -> (error: CapError)
        ensures
            error@ == (CapErrorView { kind: kind@, message: message@ }),
    {
        CapError { kind: kind.to_string(), message: message.to_string() }
    }

    pub fn denied(message: &str) -> (error: CapError)
        ensures
            error@ == denied_error(message@),
    {
        CapError::new("denied", message)
    }

    pub fn not_found(message: &str) -> (error: CapError)
        ensures
            error@ == not_found_error(message@),
    {
        CapError::new("not_found", message)
    }

    pub fn upstream(message: &str) -> (error: CapError)
        ensures
            error@ == upstream_error(message@),
    {
        CapError::new("upstream", message)
    }

    pub fn invalid(message: &str) -> (error: CapError)
        ensures
            error@ == invalid_error(message@),
    {
        CapError::new("invalid", message)
    }

    /// The error as one line of text.
    pub fn to_string(&self) -> (line: String)
        ensures
            line@ == self@.line(),
    {
        let mut line: String = self.kind.clone();
        line.append(": ");
        line.append(self.message.as_str());
        line
    }
}

impl Clone for CapError {
    fn clone(&self) -> (copy: CapError)
        ensures
            copy@ == self@,
    {
        CapError { kind: self.kind.clone(), message: self.message.clone() }
    }
}

// ---------------------------------------------------------------------------
// Agent invocation
// ---------------------------------------------------------------------------

/// What the host hands the agent when it starts.
#[derive(Debug, Clone)]
pub struct AgentInput {
    /// The task the agent should accomplish.
    pub task: String,
    /// Optional extra context prepended to the conversation.
    pub context: Option<String>,
    /// Hard ceiling on reason/act iterations, enforced by the guest and
    /// independently by the host's fuel budget.
    pub max_steps: u32,
}

/// Why an agent's loop ended.
#[derive(Debug, Clone, Copy, PartialEq, Eq, Structural)]
pub enum StopReason {
    /// The model produced a final answer.
    Completed,
    /// The agent hit its own `max_steps` ceiling.
    StepLimit,
    /// The model declined the request.
    Refusal,
    /// A capability failed in a way the agent could not work around.
    Error,
}

/// One tool call in the audit trail.
#[derive(Debug, Clone)]
pub struct ToolCallRecord {
    pub step: u32,
    pub name: String,
    pub input: serde_json::Value,
    pub ok: bool,
    /// Truncated result.
    pub result: String,
}

/// The contents of a [`ToolCallRecord`].
pub struct ToolCallRecordView {
    pub step: u32,
    pub name: Seq<char>,
    pub input: JsonTree,
    pub ok: bool,
    pub result: Seq<char>,
}

impl View for ToolCallRecord {
    type V = ToolCallRecordView;

    open spec fn view(&self) -> ToolCallRecordView {
        ToolCallRecordView {
            step: self.step,
            name: self.name@,
            input: json_tree(self.input),
            ok: self.ok,
            result: self.result@,
        }
    }
}

/// The contents of each record in order.
pub open spec fn records(list: Seq<ToolCallRecord>) -> Seq<ToolCallRecordView> {
    list.map_values(|r: ToolCallRecord| r@)
}

/// Tokens spent on model turns.
#[derive(Debug, Clone, Copy, PartialEq, Eq, Structural)]
pub struct Usage {
    pub input_tokens: u64,
    pub output_tokens: u64,
}

impl Default for Usage {
    fn default() -> (usage: Usage)
        ensures
            usage == (Usage { input_tokens: 0, output_tokens: 0 }),
    {
        Usage { input_tokens: 0, output_tokens: 0 }
    }
}

impl Usage {
    /// Whether the sum of two usages can be represented.
    pub open spec fn fits(self, other: Usage) -> bool {
        &&& self.input_tokens + other.input_tokens <= u64::MAX
        &&& self.output_tokens + other.output_tokens <= u64::MAX
    }

    /// The sum of two usages.
    pub open spec fn plus(self, other: Usage) -> Usage {
        Usage {
            input_tokens: (self.input_tokens + other.input_tokens) as u64,
            output_tokens: (self.output_tokens + other.output_tokens) as u64,
        }
    }

    /// Whether [`Usage::add`] may be called.
    pub fn can_add(&self, other: Usage) -> (fits: bool)
        ensures
            fits == self.fits(other),
    {
        other.input_tokens <= u64::MAX - self.input_tokens && other.output_tokens <= u64::MAX
            - self.output_tokens
    }

    pub fn add(&mut self, other: Usage)
        requires
            old(self).fits(other),
        ensures
            *final(self) == old(self).plus(other),
    {
        self.input_tokens = self.input_tokens + other.input_tokens;
        self.output_tokens = self.output_tokens + other.output_tokens;
    }
}

/// What the agent hands back when it finishes.
#[derive(Debug, Clone)]
pub struct AgentOutput {
    /// Final natural-language answer.
    pub answer: String,
    /// How many model turns were consumed.
    pub steps: u32,
    /// Why the loop ended.
    pub stop: StopReason,
    /// Every tool the agent invoked, in order.
    pub tool_calls: Vec<ToolCallRecord>,
    /// Token usage summed across all model turns.
    pub usage: Usage,
}

/// The contents of an [`AgentOutput`].
pub struct AgentOutputView {
    pub answer: Seq<char>,
    pub steps: u32,
    pub stop: StopReason,
    pub tool_calls: Seq<ToolCallRecordView>,
    pub usage: Usage,
}

impl View for AgentOutput {
    type V = AgentOutputView;

    open spec fn view(&self) -> AgentOutputView {
        AgentOutputView {
            answer: self.answer@,
            steps: self.steps,
            stop: self.stop,
            tool_calls: records(self.tool_calls@),
            usage: self.usage,
        }
    }
}

/// The output of a run that failed before the agent consumed a turn.
pub open spec fn failed_output(answer: Seq<char>) -> AgentOutputView {
    AgentOutputView {
        answer,
        steps: 0,
        stop: StopReason::Error,
        tool_calls: Seq::empty(),
        usage: Usage { input_tokens: 0, output_tokens: 0 },
    }
}

impl AgentOutput {
    /// The output of a run that failed before the agent consumed a turn.
    pub fn failed(answer: String) -> (output: AgentOutput)
        ensures
            output@ == failed_output(answer@),
    {
        let tool_calls: Vec<ToolCallRecord> = Vec::new();
        proof {
            assert(records(tool_calls@) =~= Seq::empty());
        }
        AgentOutput {
            answer,
            steps: 0,
            stop: StopReason::Error,
            tool_calls,
            usage: Usage { input_tokens: 0, output_tokens: 0 },
        }
    }
}

// ---------------------------------------------------------------------------
// Tools
// ---------------------------------------------------------------------------

/// A tool the host is willing to run on the agent's behalf.
#[derive(Debug)]
pub struct ToolSpec {
    pub name: String,
    pub description: String,
    /// JSON Schema for the tool's arguments.
    pub input_schema: serde_json::Value,
}

/// The contents of a [`ToolSpec`].
pub struct ToolSpecView {
    pub name: Seq<char>,
    pub description: Seq<char>,
    pub input_schema: JsonTree,
}

impl View for ToolSpec {
    type V = ToolSpecView;

    open spec fn view(&self) -> ToolSpecView {
        ToolSpecView {
            name: self.name@,
            description: self.description@,
            input_schema: json_tree(self.input_schema),
        }
    }
}

impl Clone for ToolSpec {
    fn clone(&self) -> (copy: ToolSpec)
        ensures
            copy@ == self@,
    {
        ToolSpec {
            name: self.name.clone(),
            description: self.description.clone(),
            input_schema: self.input_schema.clone(),
        }
    }
}

/// The contents of each specification in order.
pub open spec fn tool_views(tools: Seq<ToolSpec>) -> Seq<ToolSpecView> {
    tools.map_values(|t: ToolSpec| t@)
}

/// A copy of a list of tools.
pub fn clone_tools(tools: &Vec<ToolSpec>) -> (copy: Vec<ToolSpec>)
    ensures
        tool_views(copy@) == tool_views(tools@),
{
    let copy = tools.clone();
    proof {
        assert(tool_views(copy@) =~= tool_views(tools@));
    }
    copy
}

#[derive(Debug, Clone)]
pub struct ToolsListResponse {
    pub tools: Vec<ToolSpec>,
}

#[derive(Debug, Clone)]
pub struct ToolInvokeRequest {
    pub name: String,
    pub input: serde_json::Value,
}

#[derive(Debug, Clone)]
pub struct ToolInvokeResponse {
    /// Text handed back to the model as a `tool_result` block.
    pub content: String,
}

// ---------------------------------------------------------------------------
// Model conversation
// ---------------------------------------------------------------------------

#[derive(Debug, Clone, Copy, PartialEq, Eq, Structural)]
pub enum Role {
    User,
    Assistant,
}

/// One content block, in the shape of the Messages API, so that blocks the host
/// receives can be echoed back verbatim on the next turn. That matters for
/// thinking blocks, whose signatures must survive the round trip unchanged.
///
/// A block type this crate does not know about is carried as `Raw`, losslessly.
#[derive(Debug)]
pub enum Content {
    Known(KnownContent),
    Raw(serde_json::Value),
}

#[derive(Debug)]
pub enum KnownContent {
    Text { text: String },
    Thinking { thinking: String, signature: Option<String> },
    RedactedThinking { data: String },
    ToolUse { id: String, name: String, input: serde_json::Value },
    ToolResult { tool_use_id: String, content: String, is_error: bool },
}

/// The contents of a [`Content`] block.
pub enum ContentView {
    Text { text: Seq<char> },
    Thinking { thinking: Seq<char>, signature: Option<Seq<char>> },
    RedactedThinking { data: Seq<char> },
    ToolUse { id: Seq<char>, name: Seq<char>, input: JsonTree },
    ToolResult { tool_use_id: Seq<char>, content: Seq<char>, is_error: bool },
    Raw { value: JsonTree },
}

impl View for Content {
    type V = ContentView;

    open spec fn view(&self) -> ContentView {
        match self {
            Content::Known(KnownContent::Text { text }) => ContentView::Text { text: text@ },
            Content::Known(KnownContent::Thinking { thinking, signature }) => {
                ContentView::Thinking { thinking: thinking@, signature: opt_text(*signature) }
            },
            Content::Known(KnownContent::RedactedThinking { data }) => {
                ContentView::RedactedThinking { data: data@ }
            },
            Content::Known(KnownContent::ToolUse { id, name, input }) => ContentView::ToolUse {
                id: id@,
                name: name@,
                input: json_tree(*input),
            },
            Content::Known(KnownContent::ToolResult { tool_use_id, content, is_error }) => {
                ContentView::ToolResult {
                    tool_use_id: tool_use_id@,
                    content: content@,
                    is_error: *is_error,
                }
            },
            Content::Raw(value) => ContentView::Raw { value: json_tree(*value) },
        }
    }
}

/// The contents of each block in order.
pub open spec fn blocks(content: Seq<Content>) -> Seq<ContentView> {
    content.map_values(|c: Content| c@)
}

impl Clone for KnownContent {
    fn clone(&self) -> (copy: KnownContent)
        ensures
            Content::Known(copy)@ == Content::Known(*self)@,
    {
        match self {
            KnownContent::Text { text } => KnownContent::Text { text: text.clone() },
            KnownContent::Thinking { thinking, signature } => {
                let signature = match signature {
                    Some(s) => Some(s.clone()),
                    None => None,
                };
                KnownContent::Thinking { thinking: thinking.clone(), signature }
            },
            KnownContent::RedactedThinking { data } => {
                KnownContent::RedactedThinking { data: data.clone() }
            },
            KnownContent::ToolUse { id, name, input } => {
                KnownContent::ToolUse { id: id.clone(), name: name.clone(), input: input.clone() }
            },
            KnownContent::ToolResult { tool_use_id, content, is_error } => {
                KnownContent::ToolResult {
                    tool_use_id: tool_use_id.clone(),
                    content: content.clone(),
                    is_error: *is_error,
                }
            },
        }
    }
}

impl Clone for Content {
    fn clone(&self) -> (copy: Content)
        ensures
            copy@ == self@,
    {
        match self {
            Content::Known(known) => Content::Known(known.clone()),
            Content::Raw(value) => Content::Raw(value.clone()),
        }
    }
}

/// A copy of a list of blocks.
pub fn clone_blocks(content: &Vec<Content>) -> (copy: Vec<Content>)
    ensures
        blocks(copy@) == blocks(content@),
{
    let copy = content.clone();
    proof {
        assert(blocks(copy@) =~= blocks(content@));
    }
    copy
}

impl Content {
    pub fn text(text: &str) -> (block: Content)
        ensures
            block@ == (ContentView::Text { text: text@ }),
    {
        Content::Known(KnownContent::Text { text: text.to_string() })
    }

    pub fn tool_result(tool_use_id: &str, content: &str, is_error: bool) -> (block: Content)
        ensures
            block@ == (ContentView::ToolResult {
                tool_use_id: tool_use_id@,
                content: content@,
                is_error,
            }),
    {
        Content::Known(
            KnownContent::ToolResult {
                tool_use_id: tool_use_id.to_string(),
                content: content.to_string(),
                is_error,
            },
        )
    }

    /// The text of this block, if it is a text block.
    pub fn as_text(&self) -> (text: Option<&str>)
        ensures
            match self@ {
                ContentView::Text { text: t } => text is Some && text->Some_0@ == t,
                _ => text is None,
            },
    {
        match self {
            Content::Known(KnownContent::Text { text }) => Some(text.as_str()),
            _ => None,
        }
    }

    /// The `(id, name, input)` of this block, if it is a tool-use block.
    pub fn as_tool_use(&self) -> (parts: Option<(&str, &str, &serde_json::Value)>)
        ensures
            match self@ {
                ContentView::ToolUse { id, name, input } => {
                    &&& parts is Some
                    &&& parts->Some_0.0@ == id
                    &&& parts->Some_0.1@ == name
                    &&& json_tree(*parts->Some_0.2) == input
                },
                _ => parts is None,
            },
    {
        match self {
            Content::Known(KnownContent::ToolUse { id, name, input }) => {
                Some((id.as_str(), name.as_str(), input))
            },
            _ => None,
        }
    }
}

#[derive(Debug)]
pub struct Message {
    pub role: Role,
    pub content: Vec<Content>,
}

/// The contents of a [`Message`].
pub struct MessageView {
    pub role: Role,
    pub content: Seq<ContentView>,
}

impl View for Message {
    type V = MessageView;

    open spec fn view(&self) -> MessageView {
        MessageView { role: self.role, content: blocks(self.content@) }
    }
}

/// The contents of each message in order.
pub open spec fn message_views(messages: Seq<Message>) -> Seq<MessageView> {
    messages.map_values(|m: Message| m@)
}

impl Clone for Message {
    fn clone(&self) -> (copy: Message)
        ensures
            copy@ == self@,
    {
        Message { role: self.role, content: clone_blocks(&self.content) }
    }
}

/// A copy of a conversation.
pub fn clone_messages(messages: &Vec<Message>) -> (copy: Vec<Message>)
    ensures
        message_views(copy@) == message_views(messages@),
{
    let copy = messages.clone();
    proof {
        assert(message_views(copy@) =~= message_views(messages@));
    }
    copy
}

impl Message {
    pub fn user(content: Vec<Content>) -> (message: Message)
        ensures
            message@ == (MessageView { role: Role::User, content: blocks(content@) }),
    {
        Message { role: Role::User, content }
    }

    pub fn assistant(content: Vec<Content>) -> (message: Message)
        ensures
            message@ == (MessageView { role: Role::Assistant, content: blocks(content@) }),
    {
        Message { role: Role::Assistant, content }
    }
}

/// A model turn requested by the agent. Note what is *absent*: no model id, no
/// API key, no endpoint. The host owns all three.
#[derive(Debug, Clone)]
pub struct LlmRequest {
    pub system: Option<String>,
    pub messages: Vec<Message>,
    pub tools: Vec<ToolSpec>,
}

/// The contents of an [`LlmRequest`].
pub struct LlmRequestView {
    pub system: Option<Seq<char>>,
    pub messages: Seq<MessageView>,
    pub tools: Seq<ToolSpecView>,
}

impl View for LlmRequest {
    type V = LlmRequestView;

    open spec fn view(&self) -> LlmRequestView {
        LlmRequestView {
            system: opt_text(self.system),
            messages: message_views(self.messages@),
            tools: tool_views(self.tools@),
        }
    }
}

#[derive(Debug)]
pub struct LlmResponse {
    /// `end_turn`, `tool_use`, `max_tokens`, `refusal`, ...
    pub stop_reason: String,
    pub content: Vec<Content>,
    pub usage: Usage,
}

/// The contents of an [`LlmResponse`].
pub struct LlmResponseView {
    pub stop_reason: Seq<char>,
    pub content: Seq<ContentView>,
    pub usage: Usage,
}

impl View for LlmResponse {
    type V = LlmResponseView;

    open spec fn view(&self) -> LlmResponseView {
        LlmResponseView {
            stop_reason: self.stop_reason@,
            content: blocks(self.content@),
            usage: self.usage,
        }
    }
}

impl Clone for LlmResponse {
    fn clone(&self) -> (copy: LlmResponse)
        ensures
            copy@ == self@,
    {
        LlmResponse {
            stop_reason: self.stop_reason.clone(),
            content: clone_blocks(&self.content),
            usage: self.usage,
        }
    }
}

/// The text of each text block in order.
pub open spec fn block_texts(content: Seq<ContentView>) -> Seq<Seq<char>>
    decreases content.len(),
{
    if content.len() == 0 {
        Seq::empty()
    } else {
        match content.last() {
            ContentView::Text { text } => block_texts(content.drop_last()).push(text),
            _ => block_texts(content.drop_last()),
        }
    }
}

impl LlmResponseView {
    /// The text blocks, one per line, without the white space around them.
    pub open spec fn joined_text(self) -> Seq<char> {
        trim(join(block_texts(self.content), "\n"@))
    }
}

/// Adds the text of each text block in order to `out`.
pub(crate) fn push_block_texts(out: &mut Vec<String>, content: &Vec<Content>)
    ensures
        texts(final(out)@) == texts(old(out)@) + block_texts(
            blocks(content@),
        ),
{
    let ghost before = texts(out@);
    let mut i: usize = 0;
    while i < content.len()
        invariant
            i <= content.len(),
            texts(out@) == before + block_texts(blocks(content@).take(i as int)),
        decreases content.len() - i,
    {
        let ghost earlier = out@;
        proof {
            assert(blocks(content@).take(i + 1).drop_last() =~= blocks(content@).take(i as int));
        }
        if let Some(text) = content[i].as_text() {
            out.push(text.to_string());
            proof {
                assert(texts(out@) =~= texts(earlier).push(text@));
            }
        }
        i = i + 1;
    }
    proof {
        assert(blocks(content@).take(content@.len() as int) =~= blocks(content@));
    }
}

impl LlmResponse {
    /// Concatenate every text block, which is what a caller wants as the answer.
    pub fn joined_text(&self) -> (text: String)
        ensures
            text@ == self@.joined_text(),
    {
        let mut parts: Vec<String> = Vec::new();
        push_block_texts(&mut parts, &self.content);
        proof {
            assert(texts(parts@) =~= block_texts(self@.content));
        }
        let all = joined(&parts, "\n");
        trim_text(all.as_str())
    }
}

} // verus!
