//! What holds of the guest and the host together.

use vstd::prelude::*;

use crate::abi::{packed, unpacked, CapErrorView, ToolSpecView};
use crate::agent::{opened, AgentStateView};
use crate::agent_run::{
    law_a_finished_run_stays_finished, law_turns_are_bounded, law_turns_are_counted, run, turns, ReplyView,
};
use crate::error_code::BAD_REQUEST;
use crate::exports::{call_failure, call_outcome, handed, CallOutcomeView};
use crate::guest::{in_bounds, read, written};
use crate::host::{handed_over, law_delivered_response_is_read_back};
use crate::runtime::{granted_steps, GuestEventView, HandoverError, HandoverView};

verus! {

// ---------------------------------------------------------------------------
// Model turns
// ---------------------------------------------------------------------------

/// A run is granted no more turns than it asks for, never more than the policy
/// allows, and as many as it asks for wherever the policy allows them.
pub proof fn law_granted_steps_keep_to_the_policy(asked: u32, allowed: u32)
    ensures
        granted_steps(asked, allowed) <= asked,
        granted_steps(asked, allowed) <= allowed,
        asked <= allowed ==> granted_steps(asked, allowed) == asked,
        granted_steps(granted_steps(asked, allowed), allowed) == granted_steps(asked, allowed),
{
}

/// Where the agent stands after these replies, when it was started with as many
/// steps as it was granted.
pub open spec fn granted_run(
    asked: u32,
    allowed: u32,
    task: Seq<char>,
    context: Option<Seq<char>>,
    listed: Result<Seq<ToolSpecView>, CapErrorView>,
    replies: Seq<ReplyView>,
) -> AgentStateView {
    run(opened(task, context, granted_steps(asked, allowed), listed).state, replies)
}

/// The policy's ceiling binds, however many steps the caller asks for and
/// whatever the model replies: the run takes no more turns, and reports no more.
pub proof fn law_step_ceiling_binds(
    asked: u32,
    allowed: u32,
    task: Seq<char>,
    context: Option<Seq<char>>,
    listed: Result<Seq<ToolSpecView>, CapErrorView>,
    replies: Seq<ReplyView>,
)
    ensures
        turns(opened(task, context, granted_steps(asked, allowed), listed).state, replies)
            <= allowed,
        granted_run(asked, allowed, task, context, listed, replies) matches AgentStateView::Finished(
            output,
        ) ==> output.steps <= allowed,
{
    law_turns_are_bounded(
        opened(task, context, granted_steps(asked, allowed), listed).state,
        replies,
    );
}

/// An agent that keeps to what it was granted never meets the host's own
/// ceiling: whenever it asks for a turn, it has taken fewer than the policy
/// allows.
pub proof fn law_granted_turns_are_never_denied(
    asked: u32,
    allowed: u32,
    task: Seq<char>,
    context: Option<Seq<char>>,
    listed: Result<Seq<ToolSpecView>, CapErrorView>,
    replies: Seq<ReplyView>,
)
    requires
        granted_run(asked, allowed, task, context, listed, replies) is Thinking,
    ensures
        turns(opened(task, context, granted_steps(asked, allowed), listed).state, replies)
            < allowed,
{
    let start = opened(task, context, granted_steps(asked, allowed), listed).state;
    match start {
        AgentStateView::Thinking(session) => law_turns_are_counted(session, replies),
        _ => law_a_finished_run_stays_finished(start, replies),
    }
}

// ---------------------------------------------------------------------------
// Capability calls
// ---------------------------------------------------------------------------

/// A capability call comes back whole: when the host keeps a response and
/// returns its length, the guest asks for just that many bytes, finds the
/// response at the place that it named, and is told the length that it expects.
pub proof fn law_response_reaches_the_guest(
    name: Seq<char>,
    response: Seq<u8>,
    memory: Seq<u8>,
    ptr: u32,
)
    requires
        0 < response.len() <= i32::MAX,
        in_bounds(memory.len(), ptr, response.len()),
    ensures
        call_outcome(name, response.len() as i32) == CallOutcomeView::Read(response.len() as u32),
        handed_over(response, Some(memory.len()), ptr, response.len() as u32).1 == response.len(),
        read(Some(written(memory, ptr, response)), ptr, response.len() as u32) == Some(response),
{
    law_delivered_response_is_read_back(response, memory, ptr);
}

/// A guest whose request is no JSON, or whose capability name is no UTF-8, is
/// told that the host could not decode it.
pub proof fn law_undecodable_requests_are_reported(name: Seq<char>)
    ensures
        call_outcome(name, BAD_REQUEST) == CallOutcomeView::Failed(
            call_failure(name, "host could not decode the request"@),
        ),
{
}

// ---------------------------------------------------------------------------
// Input and output
// ---------------------------------------------------------------------------

/// What the guest returns for its output is what the host makes of it: the place
/// and the length, or, if the guest had no memory for it, an empty result.
pub proof fn law_returned_buffer_is_found(in_ptr: u32, in_len: u32, ptr: u32, len: u32)
    requires
        len > 0,
    ensures
        ({
            let returned = handed(ptr, len) as u64;
            (HandoverView::FreeInput { ptr: in_ptr, len: in_len, returned }).next(
                GuestEventView::Done,
            ) == if ptr == 0 {
                HandoverView::Failed(HandoverError::EmptyResult)
            } else {
                HandoverView::Read { ptr, len }
            }
        }),
{
    crate::abi::law_pack_round_trip(ptr, len);
    crate::abi::law_pack_round_trip(0, 0);
}

/// A guest that allocates, runs and returns a buffer hands over its output.
pub proof fn law_output_is_handed_over(
    input: Seq<u8>,
    ptr: u32,
    out_ptr: u32,
    output: Seq<u8>,
)
    requires
        ptr != 0,
        out_ptr != 0,
        0 < output.len() <= u32::MAX,
    ensures
        (HandoverView::Allocate { input }).after(
            seq![
                GuestEventView::Allocated(ptr),
                GuestEventView::Done,
                GuestEventView::Returned(packed(out_ptr, output.len() as u32) as u64),
                GuestEventView::Done,
                GuestEventView::Bytes(output),
                GuestEventView::Done,
            ],
        ) == (HandoverView::Done { output }),
{
    let len = output.len() as u32;
    crate::abi::law_pack_round_trip(out_ptr, len);
    let returned = packed(out_ptr, len) as u64;
    let e0 = GuestEventView::Allocated(ptr);
    let e2 = GuestEventView::Returned(returned);
    let e4 = GuestEventView::Bytes(output);
    let done = GuestEventView::Done;
    let s0 = seq![e0, done, e2, done, e4, done];
    let s1 = seq![done, e2, done, e4, done];
    let s2 = seq![e2, done, e4, done];
    let s3 = seq![done, e4, done];
    let s4 = seq![e4, done];
    let s5 = seq![done];
    assert(s0.drop_first() =~= s1);
    assert(s1.drop_first() =~= s2);
    assert(s2.drop_first() =~= s3);
    assert(s3.drop_first() =~= s4);
    assert(s4.drop_first() =~= s5);
    assert(s5.drop_first() =~= seq![]);
    let h1 = HandoverView::Write { ptr, input };
    let h2 = HandoverView::Run { ptr, len: input.len() as u32 };
    let h3 = HandoverView::FreeInput { ptr, len: input.len() as u32, returned };
    let h4 = HandoverView::Read { ptr: out_ptr, len };
    let h5 = HandoverView::FreeOutput { ptr: out_ptr, len, output };
    let h6 = HandoverView::Done { output };
    assert(h6.after(seq![]) == h6);
    assert(h5.after(s5) == h6);
    assert(h4.after(s4) == h6);
    assert(h3.after(s3) == h6);
    assert(h2.after(s2) == h6);
    assert(h1.after(s1) == h6);
}

/// The region that a guest hands out at an event, if it hands out any.
pub open spec fn handed_out(state: HandoverView, event: GuestEventView) -> Seq<(u32, u32)> {
    match (state, event) {
        (HandoverView::Allocate { input }, GuestEventView::Allocated(ptr)) if ptr != 0 => seq![
            (ptr, input.len() as u32),
        ],
        (HandoverView::Run { .. }, GuestEventView::Returned(returned)) => returned_region(returned),
        _ => seq![],
    }
}

/// The region that a guest is given back at an event, if it is given any.
pub open spec fn given_back(state: HandoverView, event: GuestEventView) -> Seq<(u32, u32)> {
    match (state, event) {
        (HandoverView::FreeInput { ptr, len, .. }, GuestEventView::Done) => seq![(ptr, len)],
        (HandoverView::FreeOutput { ptr, len, .. }, GuestEventView::Done) => seq![(ptr, len)],
        _ => seq![],
    }
}

/// The region that a returned number stands for, if it stands for any.
pub open spec fn returned_region(returned: u64) -> Seq<(u32, u32)> {
    let (ptr, len) = unpacked(returned);
    if ptr == 0 || len == 0 {
        seq![]
    } else {
        seq![(ptr, len)]
    }
}

/// All regions that a guest hands out in the course of some events.
pub open spec fn all_handed_out(state: HandoverView, events: Seq<GuestEventView>) -> Seq<(u32, u32)>
    decreases events.len(),
{
    if events.len() == 0 {
        seq![]
    } else {
        handed_out(state, events[0]) + all_handed_out(state.next(events[0]), events.drop_first())
    }
}

/// All regions that a guest is given back in the course of some events.
pub open spec fn all_given_back(state: HandoverView, events: Seq<GuestEventView>) -> Seq<(u32, u32)>
    decreases events.len(),
{
    if events.len() == 0 {
        seq![]
    } else {
        given_back(state, events[0]) + all_given_back(state.next(events[0]), events.drop_first())
    }
}

/// The regions that the host holds.
pub open spec fn held(state: HandoverView) -> Seq<(u32, u32)> {
    match state {
        HandoverView::Write { ptr, input } => seq![(ptr, input.len() as u32)],
        HandoverView::Run { ptr, len } => seq![(ptr, len)],
        HandoverView::FreeInput { ptr, len, returned } => seq![(ptr, len)] + returned_region(
            returned,
        ),
        HandoverView::Read { ptr, len } => seq![(ptr, len)],
        HandoverView::FreeOutput { ptr, len, .. } => seq![(ptr, len)],
        _ => seq![],
    }
}

/// The host gives back every region that the guest hands out, once and in order.
/// At any time the regions given back, followed by those still held, are those
/// handed out; when the exchange is over, by success or failure, none is held.
pub proof fn law_memory_is_given_back(input: Seq<u8>, events: Seq<GuestEventView>)
    ensures
        ({
            let start = HandoverView::Allocate { input };
            let end = start.after(events);
            &&& all_given_back(start, events) + held(end) == all_handed_out(start, events)
            &&& end is Done || end is Failed ==> all_given_back(start, events) == all_handed_out(
                start,
                events,
            )
        }),
{
    let start = HandoverView::Allocate { input };
    lemma_regions(start, events);
    let end = start.after(events);
    assert(held(start) + all_handed_out(start, events) =~= all_handed_out(start, events));
    if end is Done || end is Failed {
        assert(all_given_back(start, events) + held(end) =~= all_given_back(start, events));
    }
}

proof fn lemma_regions(state: HandoverView, events: Seq<GuestEventView>)
    ensures
        all_given_back(state, events) + held(state.after(events)) == held(state) + all_handed_out(
            state,
            events,
        ),
    decreases events.len(),
{
    if events.len() == 0 {
        assert(all_given_back(state, events) + held(state) =~= held(state) + all_handed_out(
            state,
            events,
        ));
    } else {
        let event = events[0];
        let rest = events.drop_first();
        let later = state.next(event);
        lemma_regions(later, rest);
        assert(given_back(state, event) + held(later) =~= held(state) + handed_out(state, event));
        let back = all_given_back(later, rest);
        let out = all_handed_out(later, rest);
        let end = held(later.after(rest));
        assert((given_back(state, event) + back) + end =~= given_back(state, event) + (back + end));
        assert(given_back(state, event) + (held(later) + out) =~= (given_back(state, event) + held(
            later,
        )) + out);
        assert((held(state) + handed_out(state, event)) + out =~= held(state) + (handed_out(
            state,
            event,
        ) + out));
    }
}

} // verus!
