//! The sandbox boundary, with a scripted model so that the assertions are about
//! the sandbox and nothing else. The agent runs natively against the host; the
//! modules are real ones under a real engine.

use std::sync::{Arc, Mutex};

use serde_json::Value;

use tds::abi::{
    AgentInput, AgentOutput, CapError, CapResponse, Content, KnownContent, LlmRequest, LlmResponse, StopReason,
    ToolInvokeResponse, ToolsListResponse, Usage,
};
use tds::agent::{open_session, AgentState};
use tds::host::{fetched, CapReply, CapRequest, HostState, Payload};
use tds::llm::LlmProvider;
use tds::policy::{Limits, Policy, Provider};
use tds::runtime::{
    check_abi_version, describe_trap, GuestEvent, Handover, HandoverError, RunFailure, RunReport, Runtime,
};

/// A module with the exports of an agent, which does nothing.
const IDLE: &str = r#"
    (module
      (memory (export "memory") 1)
      (func (export "tds_abi_version") (result i32) (i32.const 1))
      (func (export "tds_alloc") (param i32) (result i32) (i32.const 1024))
      (func (export "tds_dealloc") (param i32 i32))
      (func (export "tds_run") (param i32 i32) (result i64) (i64.const 0)))
"#;

fn json(text: &str) -> Value {
    serde_json::from_str(text).unwrap()
}

/// A model that replays a fixed script, so every test is deterministic.
struct ScriptedModel {
    turns: Vec<LlmResponse>,
    calls: Arc<Mutex<usize>>,
}

impl ScriptedModel {
    fn new(turns: Vec<LlmResponse>) -> (ScriptedModel, Arc<Mutex<usize>>) {
        let calls = Arc::new(Mutex::new(0));
        (ScriptedModel { turns, calls: calls.clone() }, calls)
    }
}

impl LlmProvider for ScriptedModel {
    fn complete(&self, _request: &LlmRequest) -> Result<LlmResponse, CapError> {
        let mut calls = self.calls.lock().unwrap();
        let n = *calls;
        *calls += 1;
        // Past the end of the script, keep replaying the last turn so a runaway
        // loop is bounded by the policy rather than by the script running dry.
        let turn = self.turns.get(n).or_else(|| self.turns.last());
        turn.cloned().ok_or_else(|| CapError::upstream("script exhausted"))
    }

    fn describe(&self) -> String {
        "scripted".to_string()
    }
}

fn tool_use_turn(id: &str, name: &str, input: Value) -> LlmResponse {
    LlmResponse {
        stop_reason: "tool_use".into(),
        content: vec![Content::Known(KnownContent::ToolUse {
            id: id.into(),
            name: name.into(),
            input,
        })],
        usage: Usage { input_tokens: 10, output_tokens: 5 },
    }
}

fn text_turn(text: &str) -> LlmResponse {
    LlmResponse {
        stop_reason: "end_turn".into(),
        content: vec![Content::text(text)],
        usage: Usage { input_tokens: 10, output_tokens: 5 },
    }
}

fn policy_with(enabled: &[&str], limits: Limits) -> Policy {
    let mut policy = Policy::default();
    policy.llm.provider = Provider::Mock;
    policy.limits = limits;
    policy.tools.enabled = enabled.iter().map(|s| s.to_string()).collect();
    policy
}

fn input(task: &str, max_steps: u32) -> AgentInput {
    AgentInput { task: task.into(), context: None, max_steps }
}

fn engine() -> wasmtime::Engine {
    let mut config = wasmtime::Config::new();
    config.consume_fuel(true);
    // No address space beyond what a guest's memory needs.
    config.memory_reservation(0);
    config.memory_reservation_for_growth(0);
    config.memory_guard_size(0);
    wasmtime::Engine::new(&config).unwrap()
}

fn list_tools(host: &mut HostState<ScriptedModel>) -> Result<ToolsListResponse, CapError> {
    match host.dispatch(CapRequest::ToolsList) {
        CapReply::Tools(response) => response.into_result(),
        other => panic!("{other:?}"),
    }
}

fn ask_model(
    host: &mut HostState<ScriptedModel>,
    request: LlmRequest,
) -> Result<LlmResponse, CapError> {
    match host.dispatch(CapRequest::LlmComplete(Payload::Decoded(request))) {
        CapReply::Model(response) => response.into_result(),
        other => panic!("{other:?}"),
    }
}

/// Runs the agent to its end, against a host without a network.
fn run_agent(host: &mut HostState<ScriptedModel>, input: AgentInput) -> AgentOutput {
    let listed = list_tools(host);
    let mut state = open_session(input, listed).state;
    loop {
        state = match state {
            AgentState::Thinking(session) => {
                let reply = ask_model(host, session.request());
                session.on_model(reply).state
            }
            AgentState::Acting(session, batch) => {
                let reply: CapResponse<ToolInvokeResponse> =
                    match host.dispatch(CapRequest::ToolInvoke(Payload::Decoded(batch.request()))) {
                        CapReply::Tool(response) => response,
                        CapReply::Fetch(fetch) => fetched(Err(fetch.on_send_error("no network"))),
                        other => panic!("{other:?}"),
                    };
                session.on_tool(batch, reply.into_result()).state
            }
            AgentState::Finished(output) => return output,
        };
    }
}

/// Exchanges input and output with a guest.
fn exchange(
    store: &mut wasmtime::Store<()>,
    instance: &wasmtime::Instance,
    input: Vec<u8>,
) -> Result<Vec<u8>, anyhow::Error> {
    let memory = instance.get_memory(&mut *store, "memory").unwrap();
    let alloc = instance.get_typed_func::<u32, u32>(&mut *store, "tds_alloc")?;
    let dealloc = instance.get_typed_func::<(u32, u32), ()>(&mut *store, "tds_dealloc")?;
    let run = instance.get_typed_func::<(u32, u32), u64>(&mut *store, "tds_run")?;
    let mut state = Handover::Allocate { input };
    loop {
        let event = match &state {
            Handover::Allocate { input } => {
                GuestEvent::Allocated(alloc.call(&mut *store, input.len() as u32)?)
            }
            Handover::Write { ptr, input } => {
                memory.write(&mut *store, *ptr as usize, input)?;
                GuestEvent::Done
            }
            Handover::Run { ptr, len } => {
                GuestEvent::Returned(run.call(&mut *store, (*ptr, *len))?)
            }
            Handover::FreeInput { ptr, len, .. } | Handover::FreeOutput { ptr, len, .. } => {
                dealloc.call(&mut *store, (*ptr, *len))?;
                GuestEvent::Done
            }
            Handover::Read { ptr, len } => {
                let mut bytes = vec![0u8; *len as usize];
                memory.read(&mut *store, *ptr as usize, &mut bytes)?;
                GuestEvent::Bytes(bytes)
            }
            Handover::Done { output } => return Ok(output.clone()),
            Handover::Failed(error) => return Err(anyhow::Error::msg(error.text())),
        };
        state = state.next(event);
    }
}

/// A runtime over a module in the text format.
fn runtime(policy: &Arc<Policy>, module: &str) -> Runtime {
    let wasm = wat::parse_str(module).unwrap();
    match Runtime::new(policy.clone(), &engine(), &wasm) {
        Ok(runtime) => runtime,
        Err(error) => panic!("{}", error.message()),
    }
}

fn start(runtime: &Runtime) -> (wasmtime::Store<()>, wasmtime::Instance) {
    let mut store = wasmtime::Store::new(runtime.module().engine(), ());
    store.set_fuel(runtime.budget().fuel).unwrap();
    let instance = wasmtime::Instance::new(&mut store, runtime.module(), &[]).unwrap();
    let version = instance
        .get_typed_func::<(), i32>(&mut store, "tds_abi_version")
        .unwrap()
        .call(&mut store, ())
        .unwrap();
    assert!(check_abi_version(version).is_ok());
    (store, instance)
}

/// One run of the agent under a policy.
fn run(policy: Policy, model: ScriptedModel, asked: AgentInput) -> RunReport {
    let policy = Arc::new(policy);
    let runtime = runtime(&policy, IDLE);
    let (store, _) = start(&runtime);
    let mut host = HostState::new(policy.clone(), model);
    let output = run_agent(&mut host, runtime.grant(asked));
    let logs = host.take_logs();
    runtime.report(Ok(output), host.describe_model(), 0, store.get_fuel().ok(), logs)
}

fn expect_rejected(policy: Policy, wasm: &[u8], why: &str) -> String {
    match Runtime::new(Arc::new(policy), &engine(), wasm) {
        Ok(_) => panic!("{why}"),
        Err(error) => error.message(),
    }
}

#[test]
fn a_run_completes_and_records_every_tool_call() {
    let (model, calls) = ScriptedModel::new(vec![
        tool_use_turn("t1", "kv_put", json(r#"{ "key": "k", "value": "v" }"#)),
        text_turn("Saved it."),
    ]);
    let report = run(
        policy_with(&["kv_put", "kv_get"], Limits::default()),
        model,
        input("save something", 4),
    );

    assert_eq!(report.output.stop, StopReason::Completed);
    assert_eq!(report.output.answer, "Saved it.");
    assert_eq!(report.output.steps, 2);
    assert_eq!(*calls.lock().unwrap(), 2);

    assert_eq!(report.output.tool_calls.len(), 1);
    let call = &report.output.tool_calls[0];
    assert_eq!(call.name, "kv_put");
    assert!(call.ok, "kv_put should have succeeded: {}", call.result);

    // Usage is summed across turns, not just taken from the last one.
    assert_eq!(report.output.usage.input_tokens, 20);
    assert!(report.fuel_used > 0);
}

#[test]
fn a_denied_tool_reaches_the_agent_as_an_error_it_can_read() {
    // `http_get` is enabled, but the allowlist is empty, so the host refuses the
    // call. The run should continue and the denial should be legible.
    let (model, _) = ScriptedModel::new(vec![
        tool_use_turn("t1", "http_get", json(r#"{ "url": "https://example.com" }"#)),
        text_turn("I could not reach that host."),
    ]);
    let report =
        run(policy_with(&["http_get"], Limits::default()), model, input("fetch a page", 4));

    assert_eq!(report.output.stop, StopReason::Completed);
    let call = &report.output.tool_calls[0];
    assert!(!call.ok);
    assert!(
        call.result.contains("denied") && call.result.contains("allowlist"),
        "denial should say what was refused and why: {}",
        call.result
    );
}

#[test]
fn the_host_step_ceiling_binds_even_when_the_caller_asks_for_more() {
    // The model never stops asking for tools. The policy allows two turns; the
    // caller requests a hundred.
    let (model, calls) = ScriptedModel::new(vec![tool_use_turn("t1", "now", json("{}"))]);
    let limits = Limits { max_steps: 2, ..Default::default() };
    let report = run(policy_with(&["now"], limits), model, input("loop forever", 100));

    assert_eq!(report.output.stop, StopReason::StepLimit);
    assert_eq!(
        *calls.lock().unwrap(),
        2,
        "the policy ceiling should bind, not the request"
    );
}

#[test]
fn a_module_that_imports_wasi_is_refused_before_it_runs() {
    let wasm = wat::parse_str(
        r#"
        (module
          (import "wasi_snapshot_preview1" "fd_write"
            (func $fd_write (param i32 i32 i32 i32) (result i32)))
          (memory (export "memory") 1)
          (func (export "tds_abi_version") (result i32) (i32.const 1))
          (func (export "tds_alloc") (param i32) (result i32) (i32.const 1024))
          (func (export "tds_dealloc") (param i32 i32))
          (func (export "tds_run") (param i32 i32) (result i64) (i64.const 0)))
        "#,
    )
    .unwrap();

    let message = expect_rejected(
        policy_with(&[], Limits::default()),
        &wasm,
        "a module importing WASI must be rejected",
    );
    assert!(
        message.contains("wasi_snapshot_preview1"),
        "the error should name the offending import: {message}"
    );
    assert_eq!(
        message,
        "agent module imports wasi_snapshot_preview1::fd_write, which this host does not provide; the agent may only import tds_host::{log, call, response_read}"
    );
}

#[test]
fn a_module_missing_the_abi_exports_is_refused() {
    let wasm = wat::parse_str(r#"(module (memory (export "memory") 1))"#).unwrap();
    let message = expect_rejected(
        policy_with(&[], Limits::default()),
        &wasm,
        "a module without the ABI exports must be rejected",
    );
    assert!(
        message.contains("does not export"),
        "the error should name the missing export: {message}"
    );
    assert_eq!(message, "agent module does not export \"tds_abi_version\"");
}

#[test]
fn a_spinning_module_is_stopped_by_its_compute_budget() {
    // The guest never calls back into the host, so nothing but fuel can stop it.
    let module = r#"
        (module
          (memory (export "memory") 1)
          (func (export "tds_abi_version") (result i32) (i32.const 1))
          (func (export "tds_alloc") (param i32) (result i32) (i32.const 1024))
          (func (export "tds_dealloc") (param i32 i32))
          (func (export "tds_run") (param i32 i32) (result i64)
            (loop $spin (br $spin))
            (i64.const 0)))
        "#;
    let limits = Limits { fuel: 5_000_000, ..Default::default() };
    let policy = Arc::new(policy_with(&[], limits));
    let runtime = runtime(&policy, module);
    let (mut store, instance) = start(&runtime);
    let error = exchange(&mut store, &instance, b"spin".to_vec()).unwrap_err();
    let report = runtime.report(Err(error), "scripted".into(), 7, store.get_fuel().ok(), vec![]);

    assert_eq!(report.output.stop, StopReason::Error);
    assert!(
        report.output.answer.contains("compute budget"),
        "the operator should be told which budget ran out: {}",
        report.output.answer
    );
    assert_eq!(report.fuel_used, 5_000_000);
    assert_eq!(report.duration_ms, 7);
    assert_eq!(report.model, "scripted");
}

#[test]
fn each_run_gets_a_fresh_scratchpad() {
    // A value written in one run must not be visible in the next.
    let start_run = |script: Vec<LlmResponse>, task: &str| {
        let (model, _) = ScriptedModel::new(script);
        run(policy_with(&["kv_put", "kv_get"], Limits::default()), model, input(task, 4))
    };

    start_run(
        vec![
            tool_use_turn("t1", "kv_put", json(r#"{ "key": "secret", "value": "hunter2" }"#)),
            text_turn("stored"),
        ],
        "write",
    );

    let report = start_run(
        vec![
            tool_use_turn("t1", "kv_get", json(r#"{ "key": "secret" }"#)),
            text_turn("read"),
        ],
        "read",
    );

    let result = &report.output.tool_calls[0].result;
    assert!(
        !result.contains("hunter2"),
        "state must not leak between runs, got: {result}"
    );
}

#[test]
fn a_module_may_import_what_the_host_provides() {
    let wasm = wat::parse_str(
        r#"
        (module
          (import "tds_host" "log" (func (param i32 i32 i32)))
          (import "tds_host" "call" (func (param i32 i32 i32 i32) (result i32)))
          (import "tds_host" "response_read" (func (param i32 i32) (result i32)))
          (memory (export "memory") 1)
          (func (export "tds_abi_version") (result i32) (i32.const 1))
          (func (export "tds_alloc") (param i32) (result i32) (i32.const 1024))
          (func (export "tds_dealloc") (param i32 i32))
          (func (export "tds_run") (param i32 i32) (result i64) (i64.const 0)))
        "#,
    )
    .unwrap();
    assert!(Runtime::new(Arc::new(Policy::default()), &engine(), &wasm).is_ok());
}

#[test]
fn a_host_function_that_does_not_exist_is_refused() {
    let wasm = wat::parse_str(r#"(module (import "tds_host" "exec" (func)))"#).unwrap();
    let message =
        expect_rejected(Policy::default(), &wasm, "an unknown host function must be rejected");
    assert!(message.starts_with("agent module imports tds_host::exec, which"));
}

#[test]
fn what_is_no_module_is_refused() {
    let message = expect_rejected(Policy::default(), b"\0asm?", "garbage must be rejected");
    assert!(message.starts_with("compiling the agent module: "), "{message}");
}

#[test]
fn what_comes_of_compiling_decides() {
    let policy = Arc::new(Policy::default());
    match Runtime::from_compiled(policy.clone(), Err("why".into())) {
        Ok(_) => panic!("a module that does not compile must be rejected"),
        Err(error) => assert_eq!(error.message(), "compiling the agent module: why"),
    }
    let wasm = wat::parse_str(IDLE).unwrap();
    let module = wasmtime::Module::new(&engine(), &wasm).unwrap();
    assert!(Runtime::from_compiled(policy, Ok(module)).is_ok());
}

#[test]
fn a_bad_policy_is_refused_before_the_module_is_looked_at() {
    let mut policy = Policy::default();
    policy.limits.fuel = 0;
    let message = expect_rejected(policy, b"", "a bad policy must be rejected");
    assert_eq!(message, "limits.fuel must be greater than zero");
}

#[test]
fn another_version_of_the_abi_is_refused() {
    assert!(check_abi_version(1).is_ok());
    assert_eq!(
        check_abi_version(-2).unwrap_err().message(),
        "agent module speaks ABI version -2, host speaks 1"
    );
}

#[test]
fn a_run_that_may_take_no_step_takes_none() {
    let (model, calls) = ScriptedModel::new(vec![text_turn("hi")]);
    let report = run(policy_with(&["now"], Limits::default()), model, input("t", 0));
    assert_eq!(report.output.stop, StopReason::StepLimit);
    assert_eq!(report.output.steps, 0);
    assert_eq!(*calls.lock().unwrap(), 0);
}

#[test]
fn the_steps_asked_for_are_kept_within_the_policy() {
    let mut policy = Policy::default();
    policy.limits.max_steps = 5;
    let policy = Arc::new(policy);
    let runtime = runtime(&policy, IDLE);
    let granted = |asked: u32| runtime.grant(input("t", asked)).max_steps;
    assert_eq!(granted(0), 0);
    assert_eq!(granted(1), 1);
    assert_eq!(granted(5), 5);
    assert_eq!(granted(6), 5);
    assert_eq!(granted(u32::MAX), 5);
    assert_eq!(runtime.grant(input("t", 2)).task, "t");
    assert_eq!(runtime.policy().limits.max_steps, 5);
}

#[test]
fn the_budget_of_a_run() {
    let mut policy = Policy::default();
    let ticks = |ms: u64| {
        policy.limits.wall_clock_ms = ms;
        runtime(&Arc::new(policy.clone()), IDLE).budget().epoch_ticks
    };
    let mut ticks = ticks;
    assert_eq!(ticks(120_000), 12_000);
    assert_eq!(ticks(19), 1);
    assert_eq!(ticks(20), 2);
    assert_eq!(ticks(1), 1);
    let budget = runtime(&Arc::new(Policy::default()), IDLE).budget();
    assert_eq!(budget.fuel, 1_000_000_000);
    assert_eq!(budget.memory_bytes, 64 * 1024 * 1024);
    assert_eq!(budget.table_elements, 10_000);
    assert_eq!((budget.instances, budget.memories, budget.tables), (1, 1, 1));
}

#[test]
fn fuel_is_counted_from_what_is_left() {
    let runtime = runtime(&Arc::new(Policy::default()), IDLE);
    let used = |left: Option<u64>| {
        let output = AgentOutput::failed(String::new());
        runtime.report(Ok(output), String::new(), 0, left, vec![]).fuel_used
    };
    assert_eq!(used(Some(999_999_990)), 10);
    assert_eq!(used(None), 1_000_000_000);
    assert_eq!(used(Some(u64::MAX)), 0);
}

#[test]
fn failures_are_described() {
    let describe = |trap: wasmtime::Trap| describe_trap(&anyhow::Error::from(trap));
    assert_eq!(
        describe(wasmtime::Trap::OutOfFuel),
        "The agent was stopped: it exhausted its compute budget (limits.fuel)."
    );
    assert_eq!(
        describe(wasmtime::Trap::Interrupt),
        "The agent was stopped: it exceeded its wall-clock budget (limits.wall_clock_ms)."
    );
    assert_eq!(
        describe(wasmtime::Trap::UnreachableCodeReached),
        "The agent panicked inside the sandbox and was stopped."
    );
    assert_eq!(
        describe(wasmtime::Trap::IntegerDivisionByZero),
        format!(
            "The agent trapped and was stopped: {}.",
            wasmtime::Trap::IntegerDivisionByZero
        )
    );
    assert_eq!(
        describe_trap(&anyhow::Error::msg("inner").context("outer")),
        "The agent run failed: outer: inner"
    );
    assert_eq!(RunFailure::Other("x".into()).reason(), "The agent run failed: x");
}

#[test]
fn a_panicking_module_is_reported_as_such() {
    let module = r#"
        (module
          (memory (export "memory") 1)
          (func (export "tds_abi_version") (result i32) (i32.const 1))
          (func (export "tds_alloc") (param i32) (result i32) (i32.const 1024))
          (func (export "tds_dealloc") (param i32 i32))
          (func (export "tds_run") (param i32 i32) (result i64) (unreachable)))
        "#;
    let runtime = runtime(&Arc::new(Policy::default()), module);
    let (mut store, instance) = start(&runtime);
    let error = exchange(&mut store, &instance, b"x".to_vec()).unwrap_err();
    assert_eq!(
        describe_trap(&error),
        "The agent panicked inside the sandbox and was stopped."
    );
}

#[test]
fn input_and_output_change_hands() {
    // Returns its input, three bytes on.
    let module = r#"
        (module
          (memory (export "memory") 1)
          (func (export "tds_abi_version") (result i32) (i32.const 1))
          (func (export "tds_alloc") (param i32) (result i32) (i32.const 1024))
          (func (export "tds_dealloc") (param i32 i32))
          (func (export "tds_run") (param i32 i32) (result i64)
            (i64.or
              (i64.shl (i64.extend_i32_u (i32.add (local.get 0) (i32.const 3))) (i64.const 32))
              (i64.extend_i32_u (i32.sub (local.get 1) (i32.const 3))))))
        "#;
    let runtime = runtime(&Arc::new(Policy::default()), module);
    let (mut store, instance) = start(&runtime);
    assert_eq!(exchange(&mut store, &instance, b"123hello".to_vec()).unwrap(), b"hello");
}

#[test]
fn an_empty_result_and_a_lack_of_memory_are_reported() {
    let idle = runtime(&Arc::new(Policy::default()), IDLE);
    let (mut store, instance) = start(&idle);
    let error = exchange(&mut store, &instance, b"x".to_vec()).unwrap_err();
    assert_eq!(describe_trap(&error), "The agent run failed: agent returned an empty result");
    let full = Handover::Allocate { input: vec![0; 12] }.next(GuestEvent::Allocated(0));
    match full {
        Handover::Failed(error) => {
            assert_eq!(error, HandoverError::NoMemory(12));
            assert_eq!(error.text(), "agent module could not allocate 12 bytes for its input");
        }
        other => panic!("{other:?}"),
    }
}

#[test]
fn memory_is_given_back_in_order() {
    let state = Handover::Allocate { input: b"in".to_vec() };
    let state = state.next(GuestEvent::Allocated(64));
    let state = state.next(GuestEvent::Done);
    assert!(matches!(state, Handover::Run { ptr: 64, len: 2 }));
    // An event that answers nothing changes nothing.
    let state = state.next(GuestEvent::Allocated(9));
    let state = state.next(GuestEvent::Returned(0x80_0000_0003));
    assert!(matches!(state, Handover::FreeInput { ptr: 64, len: 2, .. }));
    let state = state.next(GuestEvent::Done);
    assert!(matches!(state, Handover::Read { ptr: 128, len: 3 }));
    let state = state.next(GuestEvent::Bytes(b"out".to_vec()));
    assert!(matches!(state, Handover::FreeOutput { ptr: 128, len: 3, .. }));
    match state.next(GuestEvent::Done) {
        Handover::Done { output } => assert_eq!(output, b"out"),
        other => panic!("{other:?}"),
    }
}
