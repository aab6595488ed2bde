//! What the guest module exports, and how it asks the host for something.

use vstd::prelude::*;
use vstd::string::*;

use crate::abi::{
    failed_output, host_error, invalid_error, pack_ptr_len, packed, AgentOutput, CapError, CapErrorView,
    CapResponse, ABI_VERSION,
};
use crate::error_code::{BAD_POINTER, BAD_REQUEST, INTERNAL};

verus! {

/// ABI handshake. The host refuses to run a module that answers differently.
pub fn tds_abi_version() -> (version: i32)
    ensures
        version == ABI_VERSION,
{
    ABI_VERSION
}

// ---------------------------------------------------------------------------
// Memory
// ---------------------------------------------------------------------------

/// Stands for an allocation of no bytes. It is never dereferenced.
pub const DANGLING: u32 = 1;

/// How the guest answers a request for memory.
#[derive(Debug, Clone, Copy, PartialEq, Eq, Structural)]
pub enum AllocPlan {
    /// With this pointer, and no memory behind it.
    Answer(u32),
    /// With a pointer to this many bytes, or zero if there are none.
    Allocate(u32),
}

/// How the guest answers a request for `len` bytes.
pub open spec fn alloc_plan(len: u32) -> AllocPlan {
    if len == 0 {
        AllocPlan::Answer(DANGLING)
    } else {
        AllocPlan::Allocate(len)
    }
}

pub fn plan_alloc(len: u32) -> (plan: AllocPlan)
    ensures
        plan == alloc_plan(len),
{
    if len == 0 {
        AllocPlan::Answer(DANGLING)
    } else {
        AllocPlan::Allocate(len)
    }
}

/// Whether there is memory behind a pointer that the guest handed out for `len`
/// bytes.
pub open spec fn backed(ptr: u32, len: u32) -> bool {
    ptr != 0 && ptr != DANGLING && len != 0
}

/// Whether a release of a pointer has anything to release.
pub fn must_free(ptr: u32, len: u32) -> (free: bool)
    ensures
        free == backed(ptr, len),
{
    !(ptr == 0 || ptr == DANGLING || len == 0)
}

/// An allocation that needed no memory releases none.
pub proof fn law_nothing_is_freed_that_was_not_allocated(len: u32)
    requires
        alloc_plan(len) is Answer,
    ensures
        !backed(alloc_plan(len)->Answer_0, len),
{
}

/// What the guest returns for a buffer of `len` bytes that it could place at
/// `ptr`, or, with a zero pointer, could not place.
pub open spec fn handed(ptr: u32, len: u32) -> int {
    if ptr == 0 {
        packed(0, 0)
    } else {
        packed(ptr, len)
    }
}

pub fn hand_to_host(ptr: u32, len: u32) -> (both: u64)
    ensures
        both == handed(ptr, len),
{
    if ptr == 0 {
        pack_ptr_len(0, 0)
    } else {
        pack_ptr_len(ptr, len)
    }
}

// ---------------------------------------------------------------------------
// Failures of the run itself
// ---------------------------------------------------------------------------

/// The output of a run whose input could not be decoded.
pub fn input_rejected(error: &str) -> (output: AgentOutput)
    ensures
        output@ == failed_output("could not parse agent input: "@ + error@),
{
    let mut answer = "could not parse agent input: ".to_string();
    answer.append(error);
    AgentOutput::failed(answer)
}

/// What stands in for an output that could not be encoded.
pub const ENCODING_FAILED: &'static str =
    "{\"answer\":\"serialization failed\",\"steps\":0,\"stop\":\"error\"}";

// ---------------------------------------------------------------------------
// Capability calls
// ---------------------------------------------------------------------------

/// Why the host did not answer.
pub open spec fn host_reason(code: i32) -> Seq<char> {
    if code == BAD_POINTER {
        "host rejected a memory reference"@
    } else if code == BAD_REQUEST {
        "host could not decode the request"@
    } else if code == INTERNAL {
        "host failed internally"@
    } else {
        "unknown host failure"@
    }
}

/// What follows the host's return from a capability call.
#[derive(Debug)]
pub enum CallOutcome {
    /// The call failed.
    Failed(CapError),
    /// The response is empty.
    Empty,
    /// The response has this many bytes, which are to be read.
    Read(u32),
}

/// The contents of a [`CallOutcome`].
pub enum CallOutcomeView {
    Failed(CapErrorView),
    Empty,
    Read(u32),
}

impl View for CallOutcome {
    type V = CallOutcomeView;

    open spec fn view(&self) -> CallOutcomeView {
        match self {
            CallOutcome::Failed(failure) => CallOutcomeView::Failed(failure@),
            CallOutcome::Empty => CallOutcomeView::Empty,
            CallOutcome::Read(len) => CallOutcomeView::Read(*len),
        }
    }
}

/// What follows the host's return from a capability call.
pub open spec fn call_outcome(name: Seq<char>, code: i32) -> CallOutcomeView {
    if code < 0 {
        CallOutcomeView::Failed(call_failure(name, host_reason(code)))
    } else if code == 0 {
        CallOutcomeView::Empty
    } else {
        CallOutcomeView::Read(code as u32)
    }
}

/// The failure of a capability call.
pub open spec fn call_failure(name: Seq<char>, what: Seq<char>) -> CapErrorView {
    host_error(name + ": "@ + what)
}

/// The failure of a capability call.
fn call_failed(name: &str, what: &str) -> (failure: CapError)
    ensures
        failure@ == call_failure(name@, what@),
{
    let mut message = name.to_string();
    message.append(": ");
    message.append(what);
    CapError::new("host", message.as_str())
}

/// Takes in what the host's `call` returned.
pub fn on_called(name: &str, code: i32) -> (outcome: CallOutcome)
    ensures
        outcome@ == call_outcome(name@, code),
{
    if code < 0 {
        let reason = if code == BAD_POINTER {
            "host rejected a memory reference"
        } else if code == BAD_REQUEST {
            "host could not decode the request"
        } else if code == INTERNAL {
            "host failed internally"
        } else {
            "unknown host failure"
        };
        CallOutcome::Failed(call_failed(name, reason))
    } else if code == 0 {
        CallOutcome::Empty
    } else {
        CallOutcome::Read(code as u32)
    }
}

/// Takes in what the host's `response_read` returned for a response of `len`
/// bytes.
pub fn on_copied(name: &str, len: u32, copied: i32) -> (verdict: Result<(), CapError>)
    ensures
        verdict is Ok <==> copied == len,
        verdict is Err ==> verdict->Err_0@ == call_failure(name@, "truncated response"@),
{
    if copied >= 0 && copied as u32 == len {
        Ok(())
    } else {
        Err(call_failed(name, "truncated response"))
    }
}

/// Takes in the decoded response, or the decoder's complaint.
pub fn on_decoded<T>(name: &str, decoded: Result<CapResponse<T>, String>) -> (result: Result<
    T,
    CapError,
>)
    ensures
        match decoded {
            Ok(response) => result == response.result(),
            Err(error) => {
                &&& result is Err
                &&& result->Err_0@ == call_failure(name@, "malformed response: "@ + error@)
            },
        },
{
    match decoded {
        Ok(response) => response.into_result(),
        Err(error) => {
            let mut what = "malformed response: ".to_string();
            what.append(error.as_str());
            Err(call_failed(name, what.as_str()))
        },
    }
}

/// The failure to report when a request cannot be encoded.
pub fn unencodable(name: &str, error: &str) -> (failure: CapError)
    ensures
        failure@ == invalid_error("could not encode "@ + name@ + " request: "@ + error@),
{
    let mut message = "could not encode ".to_string();
    message.append(name);
    message.append(" request: ");
    message.append(error);
    CapError::invalid(message.as_str())
}

} // verus!
