//! The encapsulated AI agent.
//!
//! The agent has no authority of its own. It cannot open a socket, read a file,
//! or learn the time except by asking the host, which answers only what its
//! policy allows.
//!
//! The agent itself is an ordinary reason-and-act loop: ask the model what to
//! do, run any tools it asks for, feed the results back, repeat until it
//! answers. Here it is a state machine: each state says what to ask the host
//! next, and each answer of the host leads to the next state.

use vstd::prelude::*;
use vstd::string::*;

use crate::abi::{
    blocks, clone_blocks, clone_messages, clone_tools, message_views, records, tool_views, AgentInput, AgentOutput,
    AgentOutputView, CapError, CapErrorView, Content, ContentView, LlmRequest, LlmRequestView, LlmResponse,
    LlmResponseView, LogLevel, Message, MessageView, Role, StopReason, ToolCallRecord, ToolCallRecordView,
    ToolInvokeRequest, ToolInvokeResponse, ToolSpec, ToolSpecView, ToolsListResponse, Usage,
};
use crate::json::{json_tree, JsonTree};
use crate::text::{
    byte_len, decimal, fitting, fitting_prefix, is_blank, len_of, opt_text, push_decimal, same, trim,
};

verus! {

/// What the model is told about its situation.
pub const SYSTEM_PROMPT: &'static str =
    "You are an autonomous agent running inside a sandboxed WebAssembly module. You have no direct access to the network, the filesystem, or the clock — the only way to affect or observe anything outside your own memory is the tools listed below, each of which the host authorizes individually.\n\nWork the task to completion. Call a tool when you need information you do not already have, and prefer one well-chosen call over several speculative ones. If a tool returns an error, read it: a denial means the host's policy forbids that action and retrying it will fail the same way, so find another route or explain what you would need.\n\nWhen you have the answer, state it directly. Lead with the outcome, then any supporting detail. Do not narrate your process or describe the tools you used unless the task asked for that.";

/// The longest part of a tool's reply that the audit trail keeps, in bytes.
pub const RECORD_BYTES: usize = 512;

// ---------------------------------------------------------------------------
// States
// ---------------------------------------------------------------------------

/// A conversation under way.
pub struct Session {
    tools: Vec<ToolSpec>,
    messages: Vec<Message>,
    record: Vec<ToolCallRecord>,
    usage: Usage,
    step: u32,
    max_steps: u32,
}

/// The contents of a [`Session`].
pub struct SessionView {
    pub tools: Seq<ToolSpecView>,
    pub messages: Seq<MessageView>,
    /// The tool calls so far.
    pub record: Seq<ToolCallRecordView>,
    /// The tokens spent so far.
    pub usage: Usage,
    /// The model turn that the agent is at.
    pub step: u32,
    pub max_steps: u32,
}

impl SessionView {
    /// The agent is at one of the turns that it may take.
    pub open spec fn wf(self) -> bool {
        1 <= self.step <= self.max_steps
    }
}

impl View for Session {
    type V = SessionView;

    closed spec fn view(&self) -> SessionView {
        SessionView {
            tools: tool_views(self.tools@),
            messages: message_views(self.messages@),
            record: records(self.record@),
            usage: self.usage,
            step: self.step,
            max_steps: self.max_steps,
        }
    }
}

/// A tool call that the model asked for.
pub struct ToolCall {
    pub id: String,
    pub name: String,
    pub input: serde_json::Value,
}

/// The contents of a [`ToolCall`].
pub struct ToolCallView {
    pub id: Seq<char>,
    pub name: Seq<char>,
    pub input: JsonTree,
}

impl View for ToolCall {
    type V = ToolCallView;

    open spec fn view(&self) -> ToolCallView {
        ToolCallView { id: self.id@, name: self.name@, input: json_tree(self.input) }
    }
}

/// The contents of each call in order.
pub open spec fn tool_calls(calls: Seq<ToolCall>) -> Seq<ToolCallView> {
    calls.map_values(|call: ToolCall| call@)
}

/// The tool calls of one model turn, and the results so far.
pub struct Batch {
    calls: Vec<ToolCall>,
    results: Vec<Content>,
}

/// The contents of a [`Batch`].
pub struct BatchView {
    pub calls: Seq<ToolCallView>,
    pub results: Seq<ContentView>,
}

impl BatchView {
    /// Each result answers the call at its place, and a call is left.
    pub open spec fn wf(self) -> bool {
        &&& self.results.len() < self.calls.len()
        &&& answered(self.calls, self.results)
    }

    /// The call to make next.
    pub open spec fn current(self) -> ToolCallView {
        self.calls[self.results.len() as int]
    }
}

/// Whether each result answers the call at its place.
pub open spec fn answered(calls: Seq<ToolCallView>, results: Seq<ContentView>) -> bool {
    &&& results.len() <= calls.len()
    &&& forall|i: int|
        0 <= i < results.len() ==> {
            &&& #[trigger] results[i] is ToolResult
            &&& results[i]->ToolResult_tool_use_id == calls[i].id
        }
}

impl View for Batch {
    type V = BatchView;

    closed spec fn view(&self) -> BatchView {
        BatchView { calls: tool_calls(self.calls@), results: blocks(self.results@) }
    }
}

/// Where the agent stands.
pub enum AgentState {
    /// The model is to be asked for its next turn.
    Thinking(Session),
    /// A tool is to be invoked.
    Acting(Session, Batch),
    /// The run is over.
    Finished(AgentOutput),
}

/// The contents of an [`AgentState`].
pub enum AgentStateView {
    Thinking(SessionView),
    Acting(SessionView, BatchView),
    Finished(AgentOutputView),
}

impl AgentStateView {
    pub open spec fn wf(self) -> bool {
        match self {
            AgentStateView::Thinking(session) => session.wf(),
            AgentStateView::Acting(session, batch) => session.wf() && batch.wf(),
            AgentStateView::Finished(_) => true,
        }
    }
}

impl View for AgentState {
    type V = AgentStateView;

    open spec fn view(&self) -> AgentStateView {
        match self {
            AgentState::Thinking(session) => AgentStateView::Thinking(session@),
            AgentState::Acting(session, batch) => AgentStateView::Acting(session@, batch@),
            AgentState::Finished(output) => AgentStateView::Finished(output@),
        }
    }
}

/// A line for the host's log.
pub struct AgentLog {
    pub level: LogLevel,
    pub message: String,
}

/// The levels and texts of log lines.
pub open spec fn logged(lines: Seq<AgentLog>) -> Seq<(LogLevel, Seq<char>)> {
    lines.map_values(|line: AgentLog| (line.level, line.message@))
}

/// A step of the agent: what to log, then where it stands.
pub struct Advance {
    pub logs: Vec<AgentLog>,
    pub state: AgentState,
}

/// The contents of an [`Advance`].
pub struct AdvanceView {
    pub logs: Seq<(LogLevel, Seq<char>)>,
    pub state: AgentStateView,
}

impl View for Advance {
    type V = AdvanceView;

    open spec fn view(&self) -> AdvanceView {
        AdvanceView { logs: logged(self.logs@), state: self.state@ }
    }
}

// ---------------------------------------------------------------------------
// Steps
// ---------------------------------------------------------------------------

/// A message of the user with one text.
pub open spec fn user_text(text: Seq<char>) -> MessageView {
    MessageView { role: Role::User, content: seq![ContentView::Text { text }] }
}

/// The messages that a run begins with: the context, unless it is blank, and the
/// task.
pub open spec fn opening(task: Seq<char>, context: Option<Seq<char>>) -> Seq<MessageView> {
    match context {
        Some(context) if trim(context).len() > 0 => seq![
            user_text("Background context:\n"@ + context),
            user_text(task),
        ],
        _ => seq![user_text(task)],
    }
}

/// The first step, once the host has listed its tools or refused to.
pub open spec fn opened(
    task: Seq<char>,
    context: Option<Seq<char>>,
    max_steps: u32,
    listed: Result<Seq<ToolSpecView>, CapErrorView>,
) -> AdvanceView {
    let tools = match listed {
        Ok(tools) => tools,
        Err(_) => Seq::empty(),
    };
    let start = (
        LogLevel::Info,
        "agent starting with "@ + decimal(tools.len()) + " tool(s)"@,
    );
    let logs = match listed {
        Ok(_) => seq![start],
        Err(error) => seq![(LogLevel::Warn, "no tools available: "@ + error.line()), start],
    };
    let session = SessionView {
        tools,
        messages: opening(task, context),
        record: Seq::empty(),
        usage: Usage { input_tokens: 0, output_tokens: 0 },
        step: 1,
        max_steps,
    };
    if max_steps == 0 {
        AdvanceView {
            logs: logs.push(limit_line()),
            state: AgentStateView::Finished(session.at_limit()),
        }
    } else {
        AdvanceView { logs, state: AgentStateView::Thinking(session) }
    }
}

/// The line that tells of the step limit.
pub open spec fn limit_line() -> (LogLevel, Seq<char>) {
    (LogLevel::Warn, "agent hit its step limit"@)
}

/// The tool calls among the blocks, in order.
pub open spec fn tool_uses(content: Seq<ContentView>) -> Seq<ToolCallView>
    decreases content.len(),
{
    if content.len() == 0 {
        Seq::empty()
    } else {
        match content.last() {
            ContentView::ToolUse { id, name, input } => tool_uses(content.drop_last()).push(
                ToolCallView { id, name, input },
            ),
            _ => tool_uses(content.drop_last()),
        }
    }
}

/// The line that announces a tool call.
pub open spec fn announced(step: u32, name: Seq<char>) -> (LogLevel, Seq<char>) {
    (LogLevel::Info, "step "@ + decimal(step as nat) + ": calling tool "@ + name)
}

/// What a tool's reply says, be it a result or a failure.
pub open spec fn reply_text(reply: Result<Seq<char>, CapErrorView>) -> Seq<char> {
    match reply {
        Ok(text) => text,
        Err(error) => error.line(),
    }
}

/// What the model reads of a tool call.
pub open spec fn result_of(
    call: ToolCallView,
    reply: Result<Seq<char>, CapErrorView>,
) -> ContentView {
    ContentView::ToolResult {
        tool_use_id: call.id,
        content: reply_text(reply),
        is_error: reply is Err,
    }
}

/// What the audit trail keeps of a tool call.
pub open spec fn entry_of(
    step: u32,
    call: ToolCallView,
    reply: Result<Seq<char>, CapErrorView>,
) -> ToolCallRecordView {
    ToolCallRecordView {
        step,
        name: call.name,
        input: call.input,
        ok: reply is Ok,
        result: clipped(reply_text(reply), RECORD_BYTES as nat),
    }
}

impl SessionView {
    /// The output of a run that ends at this session.
    pub open spec fn output(self, answer: Seq<char>, steps: u32, stop: StopReason) -> AgentOutputView {
        AgentOutputView { answer, steps, stop, tool_calls: self.record, usage: self.usage }
    }

    /// The output of a run that ends at its step limit.
    pub open spec fn at_limit(self) -> AgentOutputView {
        self.output(
            "Stopped after reaching the step limit without producing a final answer."@,
            self.max_steps,
            StopReason::StepLimit,
        )
    }

    /// The request for the next model turn.
    pub open spec fn request(self) -> LlmRequestView {
        LlmRequestView {
            system: Some(SYSTEM_PROMPT@),
            messages: self.messages,
            tools: self.tools,
        }
    }

    /// The step that follows a model turn.
    pub open spec fn after_model(self, reply: Result<LlmResponseView, CapErrorView>) -> AdvanceView {
        match reply {
            Err(error) => AdvanceView {
                logs: seq![
                    (
                        LogLevel::Error,
                        "model turn "@ + decimal(self.step as nat) + " failed: "@ + error.line(),
                    ),
                ],
                state: AgentStateView::Finished(
                    self.output(
                        "The model call failed at step "@ + decimal(self.step as nat) + ": "@
                            + error.line(),
                        (self.step - 1) as u32,
                        StopReason::Error,
                    ),
                ),
            },
            Ok(response) => {
                let spent = SessionView { usage: self.usage.plus(response.usage), ..self };
                let calls = tool_uses(response.content);
                if response.stop_reason == "refusal"@ {
                    AdvanceView {
                        logs: Seq::empty(),
                        state: AgentStateView::Finished(
                            spent.output(response.joined_text(), self.step, StopReason::Refusal),
                        ),
                    }
                } else if calls.len() == 0 {
                    AdvanceView {
                        logs: Seq::empty(),
                        state: AgentStateView::Finished(
                            spent.output(response.joined_text(), self.step, StopReason::Completed),
                        ),
                    }
                } else {
                    AdvanceView {
                        logs: seq![announced(self.step, calls[0].name)],
                        state: AgentStateView::Acting(
                            SessionView {
                                messages: self.messages.push(
                                    MessageView {
                                        role: Role::Assistant,
                                        content: response.content,
                                    },
                                ),
                                ..spent
                            },
                            BatchView { calls, results: Seq::empty() },
                        ),
                    }
                }
            },
        }
    }

    /// The step that follows a tool call.
    pub open spec fn after_tool(
        self,
        batch: BatchView,
        reply: Result<Seq<char>, CapErrorView>,
    ) -> AdvanceView {
        let results = batch.results.push(result_of(batch.current(), reply));
        let noted = SessionView {
            record: self.record.push(entry_of(self.step, batch.current(), reply)),
            ..self
        };
        if results.len() < batch.calls.len() {
            AdvanceView {
                logs: seq![announced(self.step, batch.calls[results.len() as int].name)],
                state: AgentStateView::Acting(noted, BatchView { calls: batch.calls, results }),
            }
        } else if self.step < self.max_steps {
            AdvanceView {
                logs: Seq::empty(),
                state: AgentStateView::Thinking(
                    SessionView {
                        messages: self.messages.push(
                            MessageView { role: Role::User, content: results },
                        ),
                        step: (self.step + 1) as u32,
                        ..noted
                    },
                ),
            }
        } else {
            AdvanceView {
                logs: seq![limit_line()],
                state: AgentStateView::Finished(noted.at_limit()),
            }
        }
    }
}

/// The beginning of a text, with a note of what was cut.
pub open spec fn clipped(s: Seq<char>, max: nat) -> Seq<char> {
    if byte_len(s) <= max {
        s
    } else {
        fitting(s, max) + "… ["@ + decimal(
            (byte_len(s) - byte_len(fitting(s, max))) as nat,
        ) + " bytes truncated]"@
    }
}

pub fn truncate(s: &str, max: usize) -> (out: String)
    ensures
        out@ == clipped(s@, max as nat),
{
    let len: usize = len_of(s);
    if len <= max {
        return s.to_string();
    }
    let prefix = fitting_prefix(s, max);
    proof {
        crate::text::law_fitting_is_the_longest_prefix(s@, max as nat);
    }
    let cut: usize = len - len_of(prefix);
    let mut out = prefix.to_string();
    out.append("… [");
    push_decimal(&mut out, cut as u128);
    out.append(" bytes truncated]");
    out
}

/// The tool calls among the blocks, in order.
fn requested(content: &Vec<Content>) -> (calls: Vec<ToolCall>)
    ensures
        tool_calls(calls@) == tool_uses(blocks(content@)),
{
    let ghost shown = blocks(content@);
    let mut calls: Vec<ToolCall> = Vec::new();
    let mut i: usize = 0;
    proof {
        assert(tool_calls(calls@) =~= tool_uses(shown.take(0)));
    }
    while i < content.len()
        invariant
            i <= content.len(),
            shown == blocks(content@),
            tool_calls(calls@) == tool_uses(shown.take(i as int)),
        decreases content.len() - i,
    {
        let ghost before = calls@;
        proof {
            assert(shown.take(i + 1).drop_last() =~= shown.take(i as int));
        }
        if let Some((id, name, input)) = content[i].as_tool_use() {
            let call = ToolCall {
                id: id.to_string(),
                name: name.to_string(),
                input: input.clone(),
            };
            calls.push(call);
            proof {
                assert(tool_calls(calls@) =~= tool_calls(before).push(call@));
            }
        }
        i = i + 1;
    }
    proof {
        assert(shown.take(shown.len() as int) =~= shown);
    }
    calls
}

/// The line that announces a tool call.
fn announce(step: u32, name: &str) -> (lines: Vec<AgentLog>)
    ensures
        logged(lines@) == seq![announced(step, name@)],
{
    let mut message = "step ".to_string();
    push_decimal(&mut message, step as u128);
    message.append(": calling tool ");
    message.append(name);
    let mut lines: Vec<AgentLog> = Vec::new();
    lines.push(AgentLog { level: LogLevel::Info, message });
    proof {
        assert(logged(lines@) =~= seq![announced(step, name@)]);
    }
    lines
}

/// Nothing to log.
fn silence() -> (lines: Vec<AgentLog>)
    ensures
        logged(lines@) == Seq::<(LogLevel, Seq<char>)>::empty(),
{
    let lines: Vec<AgentLog> = Vec::new();
    proof {
        assert(logged(lines@) =~= Seq::empty());
    }
    lines
}

/// The contents of the host's list of tools, or of its refusal.
pub open spec fn listed_view(listed: Result<ToolsListResponse, CapError>) -> Result<
    Seq<ToolSpecView>,
    CapErrorView,
> {
    match listed {
        Ok(list) => Ok(tool_views(list.tools@)),
        Err(error) => Err(error@),
    }
}

/// The contents of a model's turn, or of its failure.
pub open spec fn turn_view(reply: Result<LlmResponse, CapError>) -> Result<
    LlmResponseView,
    CapErrorView,
> {
    match reply {
        Ok(response) => Ok(response@),
        Err(error) => Err(error@),
    }
}

/// The contents of a tool's reply, or of its failure.
pub open spec fn tool_view(reply: Result<ToolInvokeResponse, CapError>) -> Result<
    Seq<char>,
    CapErrorView,
> {
    match reply {
        Ok(response) => Ok(response.content@),
        Err(error) => Err(error@),
    }
}

/// A message of the user with one text.
fn text_message(text: &str) -> (message: Message)
    ensures
        message@ == user_text(text@),
{
    let mut content: Vec<Content> = Vec::new();
    content.push(Content::text(text));
    proof {
        assert(blocks(content@) =~= seq![ContentView::Text { text: text@ }]);
    }
    Message::user(content)
}

/// The output of a run that ends at its step limit.
fn limit_output(max_steps: u32, tool_calls: Vec<ToolCallRecord>, usage: Usage) -> (output: AgentOutput)
    ensures
        output@ == (AgentOutputView {
            answer: "Stopped after reaching the step limit without producing a final answer."@,
            steps: max_steps,
            stop: StopReason::StepLimit,
            tool_calls: records(tool_calls@),
            usage,
        }),
{
    AgentOutput {
        answer: "Stopped after reaching the step limit without producing a final answer.".to_string(),
        steps: max_steps,
        stop: StopReason::StepLimit,
        tool_calls,
        usage,
    }
}

/// Begins a run, once the host has listed its tools or refused to. The ceiling
/// is a hard one: a run that may take no step ends before it asks the model.
pub fn open_session(input: AgentInput, listed: Result<ToolsListResponse, CapError>) -> (advance: Advance)
    ensures
        advance@ == opened(
            input.task@,
            opt_text(input.context),
            input.max_steps,
            listed_view(listed),
        ),
        advance@.state.wf(),
{
    let mut logs: Vec<AgentLog> = Vec::new();
    let ghost shown = listed_view(listed);
    let tools: Vec<ToolSpec> = match listed {
        Ok(list) => list.tools,
        Err(error) => {
            let mut message = "no tools available: ".to_string();
            message.append(error.to_string().as_str());
            logs.push(AgentLog { level: LogLevel::Warn, message });
            Vec::new()
        },
    };
    let mut message = "agent starting with ".to_string();
    push_decimal(&mut message, tools.len() as u128);
    message.append(" tool(s)");
    logs.push(AgentLog { level: LogLevel::Info, message });
    let mut messages: Vec<Message> = Vec::new();
    if let Some(context) = &input.context {
        if !is_blank(context.as_str()) {
            let mut background = "Background context:\n".to_string();
            background.append(context.as_str());
            messages.push(text_message(background.as_str()));
        }
    }
    messages.push(text_message(input.task.as_str()));
    let record: Vec<ToolCallRecord> = Vec::new();
    let max_steps: u32 = input.max_steps;
    let usage = Usage { input_tokens: 0, output_tokens: 0 };
    let ghost expected = opened(input.task@, opt_text(input.context), input.max_steps, shown);
    proof {
        assert(records(record@) =~= Seq::empty());
        assert(shown is Err ==> tool_views(tools@) =~= Seq::empty());
        assert(tool_views(tools@).len() == tools@.len());
        assert(message_views(messages@) =~= opening(input.task@, opt_text(input.context)));
    }
    if max_steps == 0 {
        logs.push(
            AgentLog { level: LogLevel::Warn, message: "agent hit its step limit".to_string() },
        );
        proof {
            assert(logged(logs@) =~= expected.logs);
        }
        return Advance {
            logs,
            state: AgentState::Finished(limit_output(max_steps, record, usage)),
        };
    }
    proof {
        assert(logged(logs@) =~= expected.logs);
    }
    let session = Session {
        tools,
        messages,
        record,
        usage,
        step: 1,
        max_steps,
    };
    Advance { logs, state: AgentState::Thinking(session) }
}

impl Session {
    /// The request for the next model turn.
    pub fn request(&self) -> (request: LlmRequest)
        ensures
            request@ == self@.request(),
    {
        LlmRequest {
            system: Some(SYSTEM_PROMPT.to_string()),
            messages: clone_messages(&self.messages),
            tools: clone_tools(&self.tools),
        }
    }

    /// Whether the tokens of a turn can be added to those spent so far.
    pub fn can_spend(&self, usage: Usage) -> (fits: bool)
        ensures
            fits == self@.usage.fits(usage),
    {
        self.usage.can_add(usage)
    }

    /// Takes in a model turn.
    pub fn on_model(self, reply: Result<LlmResponse, CapError>) -> (advance: Advance)
        requires
            self@.wf(),
            reply is Ok ==> self@.usage.fits(reply->Ok_0.usage),
        ensures
            advance@ == self@.after_model(turn_view(reply)),
            advance@.state.wf(),
    {
        let mut session = self;
        let ghost start = session@;
        let step: u32 = session.step;
        let response = match reply {
            Ok(response) => response,
            Err(error) => {
                let line = error.to_string();
                let mut message = "model turn ".to_string();
                push_decimal(&mut message, step as u128);
                message.append(" failed: ");
                message.append(line.as_str());
                let mut logs: Vec<AgentLog> = Vec::new();
                logs.push(AgentLog { level: LogLevel::Error, message });
                let mut answer = "The model call failed at step ".to_string();
                push_decimal(&mut answer, step as u128);
                answer.append(": ");
                answer.append(line.as_str());
                proof {
                    assert(logged(logs@) =~= start.after_model(turn_view(reply)).logs);
                }
                return Advance {
                    logs,
                    state: AgentState::Finished(
                        AgentOutput {
                            answer,
                            steps: step - 1,
                            stop: StopReason::Error,
                            tool_calls: session.record,
                            usage: session.usage,
                        },
                    ),
                };
            },
        };
        session.usage.add(response.usage);
        if same(response.stop_reason.as_str(), "refusal") {
            return Advance {
                logs: silence(),
                state: AgentState::Finished(
                    AgentOutput {
                        answer: response.joined_text(),
                        steps: step,
                        stop: StopReason::Refusal,
                        tool_calls: session.record,
                        usage: session.usage,
                    },
                ),
            };
        }
        let calls = requested(&response.content);
        proof {
            assert(tool_calls(calls@).len() == calls@.len());
        }
        if calls.len() == 0 {
            return Advance {
                logs: silence(),
                state: AgentState::Finished(
                    AgentOutput {
                        answer: response.joined_text(),
                        steps: step,
                        stop: StopReason::Completed,
                        tool_calls: session.record,
                        usage: session.usage,
                    },
                ),
            };
        }
        // Echo the assistant turn back verbatim. Thinking blocks in particular
        // must survive unedited or the next turn is rejected.
        let ghost before = session.messages@;
        let turn = Message::assistant(clone_blocks(&response.content));
        session.messages.push(turn);
        proof {
            assert(message_views(session.messages@) =~= message_views(before).push(turn@));
        }
        let logs = announce(step, calls[0].name.as_str());
        let results: Vec<Content> = Vec::new();
        proof {
            assert(blocks(results@) =~= Seq::empty());
        }
        Advance { logs, state: AgentState::Acting(session, Batch { calls, results }) }
    }

    /// Takes in a tool's reply. A denial or upstream failure is reported to the
    /// model as an error result so it can adapt, rather than ending the run.
    pub fn on_tool(self, batch: Batch, reply: Result<ToolInvokeResponse, CapError>) -> (advance: Advance)
        requires
            self@.wf(),
            batch@.wf(),
        ensures
            advance@ == self@.after_tool(batch@, tool_view(reply)),
            advance@.state.wf(),
    {
        let mut session = self;
        let mut batch = batch;
        let ghost start = session@;
        let ghost first = batch@;
        let ghost expected = start.after_tool(first, tool_view(reply));
        let step: u32 = session.step;
        let (text, ok) = match reply {
            Ok(response) => (response.content, true),
            Err(error) => (error.to_string(), false),
        };
        let at: usize = batch.results.len();
        proof {
            assert(first.results.len() == at);
            assert(first.calls.len() == batch.calls@.len());
        }
        let entry = ToolCallRecord {
            step,
            name: batch.calls[at].name.clone(),
            input: batch.calls[at].input.clone(),
            ok,
            result: truncate(text.as_str(), RECORD_BYTES),
        };
        let ghost noted = session.record@;
        session.record.push(entry);
        let result = Content::tool_result(batch.calls[at].id.as_str(), text.as_str(), !ok);
        let ghost earlier = batch.results@;
        batch.results.push(result);
        proof {
            assert(records(session.record@) =~= records(noted).push(entry@));
            assert(blocks(batch.results@) =~= blocks(earlier).push(result@));
            assert(answered(batch@.calls, batch@.results));
        }
        if batch.results.len() < batch.calls.len() {
            let logs = announce(step, batch.calls[batch.results.len()].name.as_str());
            return Advance { logs, state: AgentState::Acting(session, batch) };
        }
        // Every tool_result for a turn goes back in a single user message.
        if step < session.max_steps {
            let ghost before = session.messages@;
            let message = Message::user(batch.results);
            session.messages.push(message);
            session.step = step + 1;
            proof {
                assert(message_views(session.messages@) =~= message_views(before).push(message@));
            }
            return Advance { logs: silence(), state: AgentState::Thinking(session) };
        }
        let mut logs: Vec<AgentLog> = Vec::new();
        logs.push(
            AgentLog { level: LogLevel::Warn, message: "agent hit its step limit".to_string() },
        );
        proof {
            assert(logged(logs@) =~= expected.logs);
        }
        Advance {
            logs,
            state: AgentState::Finished(
                limit_output(session.max_steps, session.record, session.usage),
            ),
        }
    }
}

impl Batch {
    /// The request for the next tool call.
    pub fn request(&self) -> (request: ToolInvokeRequest)
        requires
            self@.wf(),
        ensures
            request.name@ == self@.current().name,
            json_tree(request.input) == self@.current().input,
    {
        proof {
            assert(self@.results.len() == self.results@.len());
            assert(self@.calls.len() == self.calls@.len());
        }
        let call = &self.calls[self.results.len()];
        ToolInvokeRequest { name: call.name.clone(), input: call.input.clone() }
    }
}

} // verus!
