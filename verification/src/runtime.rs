//! One run of the agent, seen from the host: what a module must be to be run,
//! what the run may spend, how input and output change hands, and what is
//! reported.
//!
//! The guest module is instantiated fresh for every run, so each run gets its
//! own linear memory, its own fuel budget, and its own tool state. Nothing
//! carries over between runs but the compiled code.

use std::sync::Arc;

use vstd::prelude::*;
use vstd::string::*;

use crate::abi::{
    failed_output, unpack_ptr_len, unpacked, AgentInput, AgentOutput, AgentOutputView, ABI_VERSION,
};
use crate::host::{log_views, LogLine, LogLineView};
use crate::module::{
    compiled, compiles_to, module_exports, module_imports, shape_fault, verify_module_shape, wasm_shape, well_shaped, ShapeError,
    ShapeErrorView,
};
use crate::policy::{Limits, Policy, PolicyError, PolicyErrorView};
use crate::text::{decimal, push_decimal, push_signed, signed};

verus! {

/// How often the epoch counter advances, in milliseconds. The wall-clock budget
/// is expressed in these ticks, so it is the granularity of interruption.
pub const EPOCH_TICK_MS: u64 = 10;

// ---------------------------------------------------------------------------
// Start-up
// ---------------------------------------------------------------------------

/// Why the sandbox does not start, or does not start a run.
#[derive(Debug)]
pub enum RuntimeError {
    Policy(PolicyError),
    /// The module does not compile.
    Compile(String),
    Shape(ShapeError),
    /// The module speaks this version of the ABI.
    AbiVersion(i32),
}

/// The contents of a [`RuntimeError`].
pub enum RuntimeErrorView {
    Policy(PolicyErrorView),
    Compile(Seq<char>),
    Shape(ShapeErrorView),
    AbiVersion(i32),
}

impl View for RuntimeError {
    type V = RuntimeErrorView;

    open spec fn view(&self) -> RuntimeErrorView {
        match self {
            RuntimeError::Policy(error) => RuntimeErrorView::Policy(error@),
            RuntimeError::Compile(error) => RuntimeErrorView::Compile(error@),
            RuntimeError::Shape(error) => RuntimeErrorView::Shape(error@),
            RuntimeError::AbiVersion(version) => RuntimeErrorView::AbiVersion(*version),
        }
    }
}

impl RuntimeErrorView {
    /// The error in words.
    pub open spec fn message(self) -> Seq<char> {
        match self {
            RuntimeErrorView::Policy(error) => error.message(),
            RuntimeErrorView::Compile(error) => "compiling the agent module: "@ + error,
            RuntimeErrorView::Shape(error) => error.message(),
            RuntimeErrorView::AbiVersion(version) => "agent module speaks ABI version "@ + signed(
                version as int,
            ) + ", host speaks "@ + signed(ABI_VERSION as int),
        }
    }
}

impl RuntimeError {
    /// The error in words.
    pub fn message(&self) -> (text: String)
        ensures
            text@ == self@.message(),
    {
        match self {
            RuntimeError::Policy(error) => error.message(),
            RuntimeError::Compile(error) => {
                let mut text = "compiling the agent module: ".to_string();
                text.append(error.as_str());
                text
            },
            RuntimeError::Shape(error) => error.message(),
            RuntimeError::AbiVersion(version) => {
                let mut text = "agent module speaks ABI version ".to_string();
                push_signed(&mut text, *version);
                text.append(", host speaks ");
                push_signed(&mut text, ABI_VERSION);
                text
            },
        }
    }
}

/// Refuse a module that speaks another version of the ABI.
pub fn check_abi_version(version: i32) -> (verdict: Result<(), RuntimeError>)
    ensures
        verdict is Ok <==> version == ABI_VERSION,
        verdict is Err ==> verdict->Err_0@ == RuntimeErrorView::AbiVersion(version),
{
    if version != ABI_VERSION {
        return Err(RuntimeError::AbiVersion(version));
    }
    Ok(())
}

// ---------------------------------------------------------------------------
// What stopped a run
// ---------------------------------------------------------------------------

/// `anyhow::Error`.
#[verifier::external_type_specification]
#[verifier::external_body]
pub struct ExError(anyhow::Error);

/// What stopped a run.
#[derive(Debug)]
pub enum RunFailure {
    OutOfFuel,
    Interrupted,
    Unreachable,
    /// Another trap.
    Trap(String),
    /// Anything but a trap.
    Other(String),
}

/// The contents of a [`RunFailure`].
pub enum RunFailureView {
    OutOfFuel,
    Interrupted,
    Unreachable,
    Trap(Seq<char>),
    Other(Seq<char>),
}

impl View for RunFailure {
    type V = RunFailureView;

    open spec fn view(&self) -> RunFailureView {
        match self {
            RunFailure::OutOfFuel => RunFailureView::OutOfFuel,
            RunFailure::Interrupted => RunFailureView::Interrupted,
            RunFailure::Unreachable => RunFailureView::Unreachable,
            RunFailure::Trap(text) => RunFailureView::Trap(text@),
            RunFailure::Other(text) => RunFailureView::Other(text@),
        }
    }
}

/// What an error holds: the trap inside it, or its text.
pub uninterp spec fn failure_of(error: anyhow::Error) -> RunFailureView;

/// `anyhow::Error::downcast_ref::<wasmtime::Trap>`: the trap that the error
/// holds, by its variant or else by its text; without a trap, the text of the
/// error with all its causes.
#[verifier::external_body]
fn classify(error: &anyhow::Error) -> (failure: RunFailure)
    ensures
        failure@ == failure_of(*error),
{
    match error.downcast_ref::<wasmtime::Trap>() {
        Some(wasmtime::Trap::OutOfFuel) => RunFailure::OutOfFuel,
        Some(wasmtime::Trap::Interrupt) => RunFailure::Interrupted,
        Some(wasmtime::Trap::UnreachableCodeReached) => RunFailure::Unreachable,
        Some(other) => RunFailure::Trap(format!("{other}")),
        None => RunFailure::Other(format!("{error:#}")),
    }
}

impl RunFailureView {
    /// What the caller is told.
    pub open spec fn reason(self) -> Seq<char> {
        match self {
            RunFailureView::OutOfFuel => {
                "The agent was stopped: it exhausted its compute budget (limits.fuel)."@
            },
            RunFailureView::Interrupted => {
                "The agent was stopped: it exceeded its wall-clock budget (limits.wall_clock_ms)."@
            },
            RunFailureView::Unreachable => {
                "The agent panicked inside the sandbox and was stopped."@
            },
            RunFailureView::Trap(text) => "The agent trapped and was stopped: "@ + text + "."@,
            RunFailureView::Other(text) => "The agent run failed: "@ + text,
        }
    }
}

impl RunFailure {
    /// What the caller is told.
    pub fn reason(&self) -> (text: String)
        ensures
            text@ == self@.reason(),
    {
        match self {
            RunFailure::OutOfFuel => {
                "The agent was stopped: it exhausted its compute budget (limits.fuel).".to_string()
            },
            RunFailure::Interrupted => {
                "The agent was stopped: it exceeded its wall-clock budget (limits.wall_clock_ms).".to_string()
            },
            RunFailure::Unreachable => {
                "The agent panicked inside the sandbox and was stopped.".to_string()
            },
            RunFailure::Trap(trap) => {
                let mut text = "The agent trapped and was stopped: ".to_string();
                text.append(trap.as_str());
                text.append(".");
                text
            },
            RunFailure::Other(error) => {
                let mut text = "The agent run failed: ".to_string();
                text.append(error.as_str());
                text
            },
        }
    }
}

/// What the caller is told of an error.
pub fn describe_trap(error: &anyhow::Error) -> (text: String)
    ensures
        text@ == failure_of(*error).reason(),
{
    classify(error).reason()
}

// ---------------------------------------------------------------------------
// Budgets
// ---------------------------------------------------------------------------

/// What one run may spend.
#[derive(Debug, Clone, Copy, PartialEq, Eq, Structural)]
pub struct RunBudget {
    pub fuel: u64,
    /// One deadline for the whole run. A guest that loops forever, and a guest
    /// that waits forever on a slow model, are both stopped by it.
    pub epoch_ticks: u64,
    pub memory_bytes: usize,
    pub table_elements: usize,
    pub instances: usize,
    pub memories: usize,
    pub tables: usize,
}

/// What one run may spend under these limits.
pub open spec fn budget_of(limits: Limits) -> RunBudget {
    RunBudget {
        fuel: limits.fuel,
        epoch_ticks: if limits.wall_clock_ms < EPOCH_TICK_MS {
            1
        } else {
            limits.wall_clock_ms / EPOCH_TICK_MS
        },
        memory_bytes: limits.memory_bytes,
        table_elements: limits.table_elements,
        instances: 1,
        memories: 1,
        tables: 1,
    }
}

/// The model turns that a run may take: as many as it asks for, but never more
/// than the policy allows.
pub open spec fn granted_steps(asked: u32, allowed: u32) -> u32 {
    if asked > allowed {
        allowed
    } else {
        asked
    }
}

/// The fuel that a run has used, given what was left of it.
pub open spec fn spent(fuel: u64, left: Option<u64>) -> u64 {
    match left {
        Some(left) => if left < fuel {
            (fuel - left) as u64
        } else {
            0
        },
        None => fuel,
    }
}

// ---------------------------------------------------------------------------
// The report
// ---------------------------------------------------------------------------

/// Everything observable about one agent run.
#[derive(Debug, Clone)]
pub struct RunReport {
    pub output: AgentOutput,
    pub model: String,
    pub duration_ms: u128,
    pub fuel_used: u64,
    pub logs: Vec<LogLine>,
}

/// The contents of a [`RunReport`].
pub struct RunReportView {
    pub output: AgentOutputView,
    pub model: Seq<char>,
    pub duration_ms: u128,
    pub fuel_used: u64,
    pub logs: Seq<LogLineView>,
}

impl View for RunReport {
    type V = RunReportView;

    open spec fn view(&self) -> RunReportView {
        RunReportView {
            output: self.output@,
            model: self.model@,
            duration_ms: self.duration_ms,
            fuel_used: self.fuel_used,
            logs: log_views(self.logs@),
        }
    }
}

/// The output to report: the agent's, or else an outcome that says why there is
/// none.
pub open spec fn outcome(result: Result<AgentOutput, anyhow::Error>) -> AgentOutputView {
    match result {
        Ok(output) => output@,
        Err(error) => failed_output(failure_of(error).reason()),
    }
}

/// A policy and a module that can be run under it.
pub struct Runtime {
    policy: Arc<Policy>,
    module: wasmtime::Module,
}

impl Runtime {
    /// The policy that every run is held to.
    pub closed spec fn rules(self) -> Policy {
        *self.policy
    }

    /// The compiled module.
    pub closed spec fn code(self) -> wasmtime::Module {
        self.module
    }

    /// The policy is valid, and the module imports nothing but what the host
    /// provides.
    pub open spec fn wf(self) -> bool {
        &&& self.rules().valid()
        &&& well_shaped(module_imports(self.code()), module_exports(self.code()))
    }

    /// Starts the sandbox: holds the policy to its rules, compiles the module and
    /// holds it to the host ABI, in this order.
    pub fn new(policy: Arc<Policy>, engine: &wasmtime::Engine, wasm: &[u8]) -> (runtime: Result<
        Runtime,
        RuntimeError,
    >)
        ensures
            match policy.fault() {
                Some(fault) => runtime is Err && runtime->Err_0@ == RuntimeErrorView::Policy(fault),
                None => match runtime {
                    Ok(runtime) => {
                        &&& runtime.wf()
                        &&& runtime.rules() == *policy
                        &&& compiles_to(engine, wasm, Ok(runtime.code()))
                        &&& (module_imports(runtime.code()), module_exports(runtime.code()))
                            == wasm_shape(wasm@)
                        &&& shape_fault(wasm_shape(wasm@).0, wasm_shape(wasm@).1) is None
                    },
                    Err(RuntimeError::Compile(error)) => compiles_to(engine, wasm, Err(error)),
                    Err(RuntimeError::Shape(error)) => Some(error@) == shape_fault(
                        wasm_shape(wasm@).0,
                        wasm_shape(wasm@).1,
                    ),
                    Err(_) => false,
                },
            },
    {
        if let Err(error) = policy.validate() {
            return Err(RuntimeError::Policy(error));
        }
        Runtime::from_compiled(policy, compiled(engine, wasm))
    }

    /// Starts the sandbox under a valid policy with what came of compiling the
    /// module.
    pub fn from_compiled(policy: Arc<Policy>, compiled: Result<wasmtime::Module, String>) -> (runtime:
        Result<Runtime, RuntimeError>)
        requires
            policy.valid(),
        ensures
            match compiled {
                Err(error) => runtime == Err::<Runtime, _>(RuntimeError::Compile(error)),
                Ok(module) => match shape_fault(module_imports(module), module_exports(module)) {
                    Some(fault) => {
                        &&& runtime is Err
                        &&& runtime->Err_0@ == RuntimeErrorView::Shape(fault)
                    },
                    None => {
                        &&& runtime is Ok
                        &&& runtime->Ok_0.wf()
                        &&& runtime->Ok_0.rules() == *policy
                        &&& runtime->Ok_0.code() == module
                    },
                },
            },
    {
        let module = match compiled {
            Ok(module) => module,
            Err(error) => {
                return Err(RuntimeError::Compile(error));
            },
        };
        match verify_module_shape(&module) {
            Ok(_) => Ok(Runtime { policy, module }),
            Err(error) => Err(RuntimeError::Shape(error)),
        }
    }

    /// The policy that every run is held to.
    pub fn policy(&self) -> (policy: &Policy)
        ensures
            *policy == self.rules(),
    {
        &*self.policy
    }

    /// The compiled module.
    pub fn module(&self) -> (module: &wasmtime::Module)
        ensures
            *module == self.code(),
    {
        &self.module
    }

    /// What one run may spend.
    pub fn budget(&self) -> (budget: RunBudget)
        ensures
            budget == budget_of(self.rules().limits),
    {
        let limits = &self.policy.limits;
        let ticks: u64 = limits.wall_clock_ms / EPOCH_TICK_MS;
        RunBudget {
            fuel: limits.fuel,
            epoch_ticks: if ticks < 1 {
                1
            } else {
                ticks
            },
            memory_bytes: limits.memory_bytes,
            table_elements: limits.table_elements,
            instances: 1,
            memories: 1,
            tables: 1,
        }
    }

    /// The input that the agent is given. The guest may ask for fewer steps than
    /// the policy allows, never more.
    pub fn grant(&self, input: AgentInput) -> (granted: AgentInput)
        ensures
            granted.task == input.task,
            granted.context == input.context,
            granted.max_steps == granted_steps(input.max_steps, self.rules().limits.max_steps),
    {
        let allowed: u32 = self.policy.limits.max_steps;
        let max_steps: u32 = if input.max_steps > allowed {
            allowed
        } else {
            input.max_steps
        };
        AgentInput { task: input.task, context: input.context, max_steps }
    }

    /// The report of a run. A trap becomes an outcome rather than an opaque
    /// failure: the caller wants to know the agent was stopped and why.
    pub fn report(
        &self,
        result: Result<AgentOutput, anyhow::Error>,
        model: String,
        duration_ms: u128,
        fuel_left: Option<u64>,
        logs: Vec<LogLine>,
    ) -> (report: RunReport)
        ensures
            report@ == (RunReportView {
                output: outcome(result),
                model: model@,
                duration_ms,
                fuel_used: spent(self.rules().limits.fuel, fuel_left),
                logs: log_views(logs@),
            }),
    {
        let output = match result {
            Ok(output) => output,
            Err(error) => AgentOutput::failed(describe_trap(&error)),
        };
        let fuel: u64 = self.policy.limits.fuel;
        let left: u64 = match fuel_left {
            Some(left) => left,
            None => 0,
        };
        let fuel_used: u64 = if left < fuel {
            fuel - left
        } else {
            0
        };
        RunReport { output, model, duration_ms, fuel_used, logs }
    }
}

// ---------------------------------------------------------------------------
// Handing over input and output
// ---------------------------------------------------------------------------

/// Where the exchange of input and output with a guest stands. Each state but
/// the last two says what is to be done with the guest next.
#[derive(Debug)]
pub enum Handover {
    /// Ask the guest for as many bytes as the input has.
    Allocate { input: Vec<u8> },
    /// Write the input into the guest's memory.
    Write { ptr: u32, input: Vec<u8> },
    /// Run the agent on the input.
    Run { ptr: u32, len: u32 },
    /// Give the input's memory back; the agent has returned.
    FreeInput { ptr: u32, len: u32, returned: u64 },
    /// Read the output out of the guest's memory.
    Read { ptr: u32, len: u32 },
    /// Give the output's memory back.
    FreeOutput { ptr: u32, len: u32, output: Vec<u8> },
    /// The output is here.
    Done { output: Vec<u8> },
    /// The guest cannot go on.
    Failed(HandoverError),
}

/// Why a guest cannot go on.
#[derive(Debug, Clone, Copy, PartialEq, Eq, Structural)]
pub enum HandoverError {
    /// It could not allocate this many bytes.
    NoMemory(u32),
    EmptyResult,
}

/// What the guest did.
#[derive(Debug)]
pub enum GuestEvent {
    /// It allocated memory at this place, or, with zero, could not.
    Allocated(u32),
    /// It did as it was told.
    Done,
    /// It returned from the run with this number.
    Returned(u64),
    /// These bytes were read from its memory.
    Bytes(Vec<u8>),
}

/// The contents of a [`Handover`].
pub enum HandoverView {
    Allocate { input: Seq<u8> },
    Write { ptr: u32, input: Seq<u8> },
    Run { ptr: u32, len: u32 },
    FreeInput { ptr: u32, len: u32, returned: u64 },
    Read { ptr: u32, len: u32 },
    FreeOutput { ptr: u32, len: u32, output: Seq<u8> },
    Done { output: Seq<u8> },
    Failed(HandoverError),
}

impl View for Handover {
    type V = HandoverView;

    open spec fn view(&self) -> HandoverView {
        match self {
            Handover::Allocate { input } => HandoverView::Allocate { input: input@ },
            Handover::Write { ptr, input } => HandoverView::Write { ptr: *ptr, input: input@ },
            Handover::Run { ptr, len } => HandoverView::Run { ptr: *ptr, len: *len },
            Handover::FreeInput { ptr, len, returned } => HandoverView::FreeInput {
                ptr: *ptr,
                len: *len,
                returned: *returned,
            },
            Handover::Read { ptr, len } => HandoverView::Read { ptr: *ptr, len: *len },
            Handover::FreeOutput { ptr, len, output } => HandoverView::FreeOutput {
                ptr: *ptr,
                len: *len,
                output: output@,
            },
            Handover::Done { output } => HandoverView::Done { output: output@ },
            Handover::Failed(error) => HandoverView::Failed(*error),
        }
    }
}

/// The contents of a [`GuestEvent`].
pub enum GuestEventView {
    Allocated(u32),
    Done,
    Returned(u64),
    Bytes(Seq<u8>),
}

impl View for GuestEvent {
    type V = GuestEventView;

    open spec fn view(&self) -> GuestEventView {
        match self {
            GuestEvent::Allocated(ptr) => GuestEventView::Allocated(*ptr),
            GuestEvent::Done => GuestEventView::Done,
            GuestEvent::Returned(both) => GuestEventView::Returned(*both),
            GuestEvent::Bytes(bytes) => GuestEventView::Bytes(bytes@),
        }
    }
}

impl HandoverView {
    /// Where an event leads. One that does not answer what was asked of the guest
    /// leads nowhere.
    pub open spec fn next(self, event: GuestEventView) -> HandoverView {
        match (self, event) {
            (HandoverView::Allocate { input }, GuestEventView::Allocated(ptr)) => if ptr == 0 {
                HandoverView::Failed(HandoverError::NoMemory(input.len() as u32))
            } else {
                HandoverView::Write { ptr, input }
            },
            (HandoverView::Write { ptr, input }, GuestEventView::Done) => HandoverView::Run {
                ptr,
                len: input.len() as u32,
            },
            (HandoverView::Run { ptr, len }, GuestEventView::Returned(returned)) => {
                HandoverView::FreeInput { ptr, len, returned }
            },
            (HandoverView::FreeInput { returned, .. }, GuestEventView::Done) => {
                let (ptr, len) = unpacked(returned);
                if ptr == 0 || len == 0 {
                    HandoverView::Failed(HandoverError::EmptyResult)
                } else {
                    HandoverView::Read { ptr, len }
                }
            },
            (HandoverView::Read { ptr, len }, GuestEventView::Bytes(output)) => {
                HandoverView::FreeOutput { ptr, len, output }
            },
            (HandoverView::FreeOutput { output, .. }, GuestEventView::Done) => HandoverView::Done {
                output,
            },
            _ => self,
        }
    }

    /// Where a sequence of events leads.
    pub open spec fn after(self, events: Seq<GuestEventView>) -> HandoverView
        decreases events.len(),
    {
        if events.len() == 0 {
            self
        } else {
            self.next(events[0]).after(events.drop_first())
        }
    }
}

impl Handover {
    /// Takes in what the guest did.
    pub fn next(self, event: GuestEvent) -> (later: Handover)
        ensures
            later@ == self@.next(event@),
    {
        match (self, event) {
            (Handover::Allocate { input }, GuestEvent::Allocated(ptr)) => {
                if ptr == 0 {
                    let len: u32 = #[verifier::truncate] (input.len() as u32);
                    Handover::Failed(HandoverError::NoMemory(len))
                } else {
                    Handover::Write { ptr, input }
                }
            },
            (Handover::Write { ptr, input }, GuestEvent::Done) => {
                let len: u32 = #[verifier::truncate] (input.len() as u32);
                Handover::Run { ptr, len }
            },
            (Handover::Run { ptr, len }, GuestEvent::Returned(returned)) => {
                Handover::FreeInput { ptr, len, returned }
            },
            (Handover::FreeInput { ptr: _, len: _, returned }, GuestEvent::Done) => {
                let (ptr, len) = unpack_ptr_len(returned);
                if ptr == 0 || len == 0 {
                    Handover::Failed(HandoverError::EmptyResult)
                } else {
                    Handover::Read { ptr, len }
                }
            },
            (Handover::Read { ptr, len }, GuestEvent::Bytes(output)) => {
                Handover::FreeOutput { ptr, len, output }
            },
            (Handover::FreeOutput { ptr: _, len: _, output }, GuestEvent::Done) => {
                Handover::Done { output }
            },
            (state, _) => state,
        }
    }
}

impl HandoverError {
    /// The error in words.
    pub open spec fn message(self) -> Seq<char> {
        match self {
            HandoverError::NoMemory(len) => "agent module could not allocate "@ + decimal(
                len as nat,
            ) + " bytes for its input"@,
            HandoverError::EmptyResult => "agent returned an empty result"@,
        }
    }

    /// The error in words.
    pub fn text(self) -> (text: String)
        ensures
            text@ == self.message(),
    {
        match self {
            HandoverError::NoMemory(len) => {
                let mut text = "agent module could not allocate ".to_string();
                push_decimal(&mut text, len as u128);
                text.append(" bytes for its input");
                text
            },
            HandoverError::EmptyResult => "agent returned an empty result".to_string(),
        }
    }
}

} // verus!
