//! Whole runs of the agent: what holds whatever the model and the tools reply.

use vstd::prelude::*;

use crate::abi::{
    CapErrorView, ContentView, LlmRequestView, LlmResponseView, MessageView, Role, StopReason, ToolCallRecordView,
    ToolSpecView, Usage,
};
use crate::agent::{
    answered, clipped, opened, result_of, tool_uses, AgentStateView, BatchView, SessionView, ToolCallView,
};

verus! {

/// An answer of the host to the agent.
pub enum ReplyView {
    Model(Result<LlmResponseView, CapErrorView>),
    Tool(Result<Seq<char>, CapErrorView>),
}

/// Whether the agent waits for an answer of this sort.
pub open spec fn awaits(state: AgentStateView, reply: ReplyView) -> bool {
    match state {
        AgentStateView::Thinking(_) => reply is Model,
        AgentStateView::Acting(_, _) => reply is Tool,
        AgentStateView::Finished(_) => false,
    }
}

/// Where an answer leads. An answer that the agent does not wait for leads
/// nowhere.
pub open spec fn next(state: AgentStateView, reply: ReplyView) -> AgentStateView {
    match (state, reply) {
        (AgentStateView::Thinking(session), ReplyView::Model(turn)) => session.after_model(
            turn,
        ).state,
        (AgentStateView::Acting(session, batch), ReplyView::Tool(text)) => session.after_tool(
            batch,
            text,
        ).state,
        _ => state,
    }
}

/// Where a sequence of answers leads.
pub open spec fn run(state: AgentStateView, replies: Seq<ReplyView>) -> AgentStateView
    decreases replies.len(),
{
    if replies.len() == 0 {
        state
    } else {
        run(next(state, replies[0]), replies.drop_first())
    }
}

/// How many model turns a run takes.
pub open spec fn turns(state: AgentStateView, replies: Seq<ReplyView>) -> nat
    decreases replies.len(),
{
    if replies.len() == 0 {
        0
    } else {
        (if state is Thinking && replies[0] is Model {
            1nat
        } else {
            0nat
        }) + turns(next(state, replies[0]), replies.drop_first())
    }
}

/// How many tool calls a run makes.
pub open spec fn invocations(state: AgentStateView, replies: Seq<ReplyView>) -> nat
    decreases replies.len(),
{
    if replies.len() == 0 {
        0
    } else {
        (if state is Acting && replies[0] is Tool {
            1nat
        } else {
            0nat
        }) + invocations(next(state, replies[0]), replies.drop_first())
    }
}

/// The tokens that the model turns of a run take in and put out.
pub open spec fn tokens(state: AgentStateView, replies: Seq<ReplyView>) -> (nat, nat)
    decreases replies.len(),
{
    if replies.len() == 0 {
        (0, 0)
    } else {
        let rest = tokens(next(state, replies[0]), replies.drop_first());
        match (state, replies[0]) {
            (AgentStateView::Thinking(_), ReplyView::Model(Ok(response))) => (
                response.usage.input_tokens as nat + rest.0,
                response.usage.output_tokens as nat + rest.1,
            ),
            _ => rest,
        }
    }
}

/// How many turns are still to come after the one that the agent is at.
pub open spec fn turns_left(state: AgentStateView) -> int {
    match state {
        AgentStateView::Thinking(session) => session.max_steps - session.step + 1,
        AgentStateView::Acting(session, _) => session.max_steps - session.step,
        AgentStateView::Finished(_) => 0,
    }
}

/// How many tool calls are left in the turn that the agent is at.
pub open spec fn calls_left(state: AgentStateView) -> int {
    match state {
        AgentStateView::Acting(_, batch) => batch.calls.len() - batch.results.len(),
        _ => 0,
    }
}

/// The ceiling on model turns of a run.
pub open spec fn ceiling(state: AgentStateView) -> int {
    match state {
        AgentStateView::Thinking(session) => session.max_steps as int,
        AgentStateView::Acting(session, _) => session.max_steps as int,
        AgentStateView::Finished(output) => output.steps as int,
    }
}

/// The tool calls on record.
pub open spec fn recorded(state: AgentStateView) -> Seq<ToolCallRecordView> {
    match state {
        AgentStateView::Thinking(session) => session.record,
        AgentStateView::Acting(session, _) => session.record,
        AgentStateView::Finished(output) => output.tool_calls,
    }
}

/// The tokens accounted for.
pub open spec fn accounted(state: AgentStateView) -> Usage {
    match state {
        AgentStateView::Thinking(session) => session.usage,
        AgentStateView::Acting(session, _) => session.usage,
        AgentStateView::Finished(output) => output.usage,
    }
}

/// A well-formed state leads to well-formed states.
proof fn lemma_next_wf(state: AgentStateView, reply: ReplyView)
    requires
        state.wf(),
    ensures
        next(state, reply).wf(),
{
    match (state, reply) {
        (AgentStateView::Acting(session, batch), ReplyView::Tool(text)) => {
            let after = session.after_tool(batch, text).state;
            if let AgentStateView::Acting(_, later) = after {
                assert(answered(later.calls, later.results));
            }
        },
        _ => {},
    }
}

/// Every answer that the agent waits for brings the end of the run nearer: it
/// uses up one of the model turns, or leaves them as they are and uses up one of
/// the tool calls of the turn.
pub proof fn law_every_answer_makes_progress(state: AgentStateView, reply: ReplyView)
    requires
        state.wf(),
        awaits(state, reply),
    ensures
        next(state, reply).wf(),
        0 <= turns_left(next(state, reply)),
        0 <= calls_left(next(state, reply)),
        turns_left(next(state, reply)) < turns_left(state) || (turns_left(next(state, reply))
            == turns_left(state) && calls_left(next(state, reply)) < calls_left(state)),
{
    lemma_next_wf(state, reply);
}

/// A run takes no more model turns than its ceiling, whatever the replies are,
/// and its output reports no more.
pub proof fn law_turns_are_bounded(state: AgentStateView, replies: Seq<ReplyView>)
    requires
        state.wf(),
    ensures
        turns(state, replies) <= turns_left(state),
        turns_left(state) <= ceiling(state) || state is Finished,
        run(state, replies) matches AgentStateView::Finished(output) ==> output.steps <= ceiling(
            state,
        ),
    decreases replies.len(),
{
    if replies.len() > 0 {
        let after = next(state, replies[0]);
        lemma_next_wf(state, replies[0]);
        law_turns_are_bounded(after, replies.drop_first());
    }
}

/// When the agent asks for a model turn, it has taken exactly the turns before
/// that one.
pub proof fn law_turns_are_counted(session: SessionView, replies: Seq<ReplyView>)
    requires
        session.wf(),
    ensures
        run(AgentStateView::Thinking(session), replies) matches AgentStateView::Thinking(later)
            ==> later.step - session.step == turns(AgentStateView::Thinking(session), replies)
            && later.max_steps == session.max_steps && later.wf(),
{
    lemma_turns_are_counted(AgentStateView::Thinking(session), replies);
}

/// The turn that the agent is at or, while it acts, was at last.
spec fn at_turn(state: AgentStateView) -> int {
    match state {
        AgentStateView::Thinking(session) => session.step as int,
        AgentStateView::Acting(session, _) => session.step + 1,
        AgentStateView::Finished(_) => 0,
    }
}

proof fn lemma_turns_are_counted(state: AgentStateView, replies: Seq<ReplyView>)
    requires
        state.wf(),
    ensures
        state is Finished ==> run(state, replies) == state,
        !(run(state, replies) is Finished) ==> {
            &&& at_turn(run(state, replies)) - at_turn(state) == turns(state, replies)
            &&& ceiling(run(state, replies)) == ceiling(state)
            &&& run(state, replies).wf()
        },
    decreases replies.len(),
{
    if replies.len() > 0 {
        let after = next(state, replies[0]);
        lemma_next_wf(state, replies[0]);
        lemma_turns_are_counted(after, replies.drop_first());
    }
}

/// A run that is over stays as it is.
pub proof fn law_a_finished_run_stays_finished(state: AgentStateView, replies: Seq<ReplyView>)
    requires
        state is Finished,
    ensures
        run(state, replies) == state,
        turns(state, replies) == 0,
        invocations(state, replies) == 0,
    decreases replies.len(),
{
    if replies.len() > 0 {
        law_a_finished_run_stays_finished(state, replies.drop_first());
    }
}

/// A run that may take no step ends at once, and takes none, whatever it is
/// offered.
pub proof fn law_no_steps_no_turns(
    task: Seq<char>,
    context: Option<Seq<char>>,
    listed: Result<Seq<ToolSpecView>, CapErrorView>,
    replies: Seq<ReplyView>,
)
    ensures
        ({
            let start = opened(task, context, 0, listed).state;
            &&& turns(start, replies) == 0
            &&& invocations(start, replies) == 0
            &&& run(start, replies) matches AgentStateView::Finished(output)
            &&& output.steps == 0
            &&& output.stop == StopReason::StepLimit
        }),
{
    law_a_finished_run_stays_finished(opened(task, context, 0, listed).state, replies);
}

/// What a tool said: its reply, or the kind and the message of its failure.
pub open spec fn said(reply: Result<Seq<char>, CapErrorView>) -> Seq<char> {
    match reply {
        Ok(text) => text,
        Err(error) => error.kind + ": "@ + error.message,
    }
}

/// The tool calls that a run makes, as the audit trail keeps them: the step at
/// which each is made, the tool, its input, whether it succeeded, and what it
/// replied, clipped.
pub open spec fn trail(state: AgentStateView, replies: Seq<ReplyView>) -> Seq<ToolCallRecordView>
    decreases replies.len(),
{
    if replies.len() == 0 {
        Seq::empty()
    } else {
        let later = trail(next(state, replies[0]), replies.drop_first());
        match (state, replies[0]) {
            (AgentStateView::Acting(session, batch), ReplyView::Tool(reply)) => seq![
                ToolCallRecordView {
                    step: session.step,
                    name: batch.calls[batch.results.len() as int].name,
                    input: batch.calls[batch.results.len() as int].input,
                    ok: reply is Ok,
                    result: clipped(said(reply), 512),
                },
            ] + later,
            _ => later,
        }
    }
}

/// Every tool call is on record, in order, and nothing else is; what was on
/// record stays.
pub proof fn law_every_tool_call_is_recorded(state: AgentStateView, replies: Seq<ReplyView>)
    requires
        state.wf(),
    ensures
        recorded(run(state, replies)) == recorded(state) + trail(state, replies),
        trail(state, replies).len() == invocations(state, replies),
    decreases replies.len(),
{
    if replies.len() > 0 {
        let after = next(state, replies[0]);
        lemma_next_wf(state, replies[0]);
        law_every_tool_call_is_recorded(after, replies.drop_first());
    }
    assert(recorded(run(state, replies)) =~= recorded(state) + trail(state, replies));
}

/// Usage is summed across all model turns of a run, as long as the sum can be
/// represented.
pub proof fn law_usage_is_summed(state: AgentStateView, replies: Seq<ReplyView>)
    requires
        state.wf(),
        accounted(state).input_tokens + tokens(state, replies).0 <= u64::MAX,
        accounted(state).output_tokens + tokens(state, replies).1 <= u64::MAX,
    ensures
        accounted(run(state, replies)).input_tokens == accounted(state).input_tokens + tokens(
            state,
            replies,
        ).0,
        accounted(run(state, replies)).output_tokens == accounted(state).output_tokens + tokens(
            state,
            replies,
        ).1,
    decreases replies.len(),
{
    if replies.len() > 0 {
        lemma_next_wf(state, replies[0]);
        law_usage_is_summed(next(state, replies[0]), replies.drop_first());
    }
}

/// A turn that asks for tools is echoed back to the model verbatim, and nothing
/// that was said before is changed.
pub proof fn law_turns_are_echoed_verbatim(session: SessionView, response: LlmResponseView)
    requires
        response.stop_reason != "refusal"@,
        tool_uses(response.content).len() > 0,
    ensures
        session.after_model(Ok(response)).state matches AgentStateView::Acting(later, batch) && {
            &&& later.messages.len() == session.messages.len() + 1
            &&& later.messages.drop_last() == session.messages
            &&& later.messages.last().role == Role::Assistant
            &&& later.messages.last().content == response.content
            &&& batch.calls == tool_uses(response.content)
        },
{
    if let AgentStateView::Acting(later, _) = session.after_model(Ok(response)).state {
        assert(later.messages.drop_last() =~= session.messages);
    }
}

/// The tools' replies to the calls of a turn.
pub open spec fn tool_replies(replies: Seq<Result<Seq<char>, CapErrorView>>) -> Seq<ReplyView> {
    replies.map_values(|reply: Result<Seq<char>, CapErrorView>| ReplyView::Tool(reply))
}

/// What the model reads of the calls of a turn: for each call, in order and under
/// its own id, what the tool replied, and whether it failed.
pub open spec fn results_of(
    calls: Seq<ToolCallView>,
    replies: Seq<Result<Seq<char>, CapErrorView>>,
) -> Seq<ContentView> {
    Seq::new(
        replies.len(),
        |i: int|
            ContentView::ToolResult {
                tool_use_id: calls[i].id,
                content: said(replies[i]),
                is_error: replies[i] is Err,
            },
    )
}

/// When all tool calls of a turn are answered, all results of the turn go back in
/// a single message of the user: one for each call, in order, under the call's
/// own id, with what the tool replied and whether it failed. The next request
/// holds the messages so far, the turn of the model verbatim, and that message.
pub proof fn law_every_tool_use_gets_its_result(
    session: SessionView,
    response: LlmResponseView,
    replies: Seq<Result<Seq<char>, CapErrorView>>,
)
    requires
        session.wf(),
        session.step < session.max_steps,
        wants_tools(ReplyView::Model(Ok(response))),
        replies.len() == tool_uses(response.content).len(),
    ensures
        run(
            AgentStateView::Thinking(session),
            seq![ReplyView::Model(Ok(response))] + tool_replies(replies),
        ) matches AgentStateView::Thinking(later) && {
            &&& later.step == session.step + 1
            &&& later.request() == (LlmRequestView {
                messages: session.messages.push(
                    MessageView { role: Role::Assistant, content: response.content },
                ).push(
                    MessageView {
                        role: Role::User,
                        content: results_of(tool_uses(response.content), replies),
                    },
                ),
                ..session.request()
            })
        },
{
    let start = AgentStateView::Thinking(session);
    let turn = ReplyView::Model(Ok(response));
    let all = seq![turn] + tool_replies(replies);
    assert(all.drop_first() =~= tool_replies(replies));
    if let AgentStateView::Acting(later, batch) = next(start, turn) {
        assert(answered(batch.calls, batch.results));
        lemma_batch(later, batch, replies);
        assert(batch.results + results_of(batch.calls, replies) =~= results_of(
            batch.calls,
            replies,
        ));
        assert(batch.calls.skip(0) =~= batch.calls);
    }
}

/// The rest of the calls of a turn.
proof fn lemma_batch(
    session: SessionView,
    batch: BatchView,
    replies: Seq<Result<Seq<char>, CapErrorView>>,
)
    requires
        session.wf(),
        batch.wf(),
        session.step < session.max_steps,
        batch.results.len() + replies.len() == batch.calls.len(),
    ensures
        run(
            AgentStateView::Acting(session, batch),
            tool_replies(replies),
        ) matches AgentStateView::Thinking(later) && {
            &&& later.step == session.step + 1
            &&& later.tools == session.tools
            &&& later.messages == session.messages.push(
                MessageView {
                    role: Role::User,
                    content: batch.results + results_of(
                        batch.calls.skip(batch.results.len() as int),
                        replies,
                    ),
                },
            )
        },
    decreases replies.len(),
{
    let state = AgentStateView::Acting(session, batch);
    let rest = replies.drop_first();
    let left = batch.calls.skip(batch.results.len() as int);
    assert(tool_replies(replies).drop_first() =~= tool_replies(rest));
    assert(tool_replies(replies)[0] == ReplyView::Tool(replies[0]));
    assert(left[0] == batch.current());
    let after = next(state, ReplyView::Tool(replies[0]));
    lemma_next_wf(state, ReplyView::Tool(replies[0]));
    let results = batch.results.push(result_of(batch.current(), replies[0]));
    assert(run(state, tool_replies(replies)) == run(after, tool_replies(rest)));
    match after {
        AgentStateView::Acting(later, further) => {
            assert(further.results == results && further.calls == batch.calls);
            lemma_batch(later, further, rest);
            let other = further.calls.skip(further.results.len() as int);
            assert(results + results_of(other, rest) =~= batch.results + results_of(left, replies));
        },
        AgentStateView::Thinking(_) => {
            assert(tool_replies(rest) =~= Seq::empty());
            assert(results =~= batch.results + results_of(left, replies));
        },
        _ => {},
    }
}

/// Whether a model turn is one that asks for tools, and no refusal.
pub open spec fn wants_tools(reply: ReplyView) -> bool {
    match reply {
        ReplyView::Model(Ok(response)) => response.stop_reason != "refusal"@ && tool_uses(
            response.content,
        ).len() > 0,
        _ => false,
    }
}

/// Whether every model turn of a run is one that asks for tools.
pub open spec fn always_wants_tools(state: AgentStateView, replies: Seq<ReplyView>) -> bool
    decreases replies.len(),
{
    replies.len() > 0 ==> {
        &&& state is Thinking && replies[0] is Model ==> wants_tools(replies[0])
        &&& always_wants_tools(next(state, replies[0]), replies.drop_first())
    }
}

/// A run ends at its step limit exactly when every model turn that it takes
/// succeeds, is no refusal and asks for a tool; it has then taken every turn up
/// to the ceiling, and reports the ceiling. And a run whose every turn is such
/// and whose turns are used up has ended so, once its last tool calls are
/// answered.
pub proof fn law_step_limit_is_reached_by_tool_calls_alone(
    state: AgentStateView,
    replies: Seq<ReplyView>,
)
    requires
        state.wf(),
        !(state is Finished),
    ensures
        run(state, replies) matches AgentStateView::Finished(output) ==> {
            &&& output.stop == StopReason::StepLimit <==> always_wants_tools(state, replies)
            &&& output.stop == StopReason::StepLimit ==> turns(state, replies) == turns_left(state)
                && output.steps == ceiling(state)
        },
        always_wants_tools(state, replies) && turns(state, replies) == turns_left(state)
            && !(run(state, replies) is Acting) ==> run(state, replies) is Finished,
    decreases replies.len(),
{
    if replies.len() > 0 {
        let reply = replies[0];
        let rest = replies.drop_first();
        let after = next(state, reply);
        lemma_next_wf(state, reply);
        if after is Finished {
            law_a_finished_run_stays_finished(after, rest);
            lemma_finished_wants_nothing(after, rest);
        } else {
            law_step_limit_is_reached_by_tool_calls_alone(after, rest);
        }
    }
}

proof fn lemma_finished_wants_nothing(state: AgentStateView, replies: Seq<ReplyView>)
    requires
        state is Finished,
    ensures
        always_wants_tools(state, replies),
    decreases replies.len(),
{
    if replies.len() > 0 {
        lemma_finished_wants_nothing(state, replies.drop_first());
    }
}

/// A failed tool call does not end the run: the model reads of it.
pub proof fn law_tool_failure_reaches_the_model(
    session: SessionView,
    batch: BatchView,
    error: CapErrorView,
)
    requires
        session.wf(),
        batch.wf(),
        session.step < session.max_steps,
    ensures
        ({
            let results = match session.after_tool(batch, Err(error)).state {
                AgentStateView::Acting(_, later) => later.results,
                AgentStateView::Thinking(later) => later.messages.last().content,
                AgentStateView::Finished(_) => Seq::empty(),
            };
            &&& results.len() == batch.results.len() + 1
            &&& results.last() == (ContentView::ToolResult {
                tool_use_id: batch.current().id,
                content: error.line(),
                is_error: true,
            })
        }),
{
}

} // verus!
