# tds

A sandbox that runs an AI agent as a WebAssembly module. The agent has no
authority of its own: it reaches a model, a clock, the network or its scratchpad
only by asking the host, and the host answers only what its policy allows.

`src/` is the library, verified with Verus:

- `abi`, `cap`, `error_code`, `wire`: the messages between guest, host and model,
  and how a conversation is written as JSON.
- `agent`, `agent_run`, `exports`: the agent's loop as a state machine, what holds
  of whole runs, and the guest's side of the ABI.
- `policy`, `tools`, `tool_laws`: what the agent may consume and reach, the tools
  behind it, and what holds of every tool call.
- `guest`, `host`: guest memory, and the three functions that a guest can call.
- `llm`, `mock`: the requests to a model, their retries, and a stand-in model.
- `module`, `runtime`, `sandbox`: which modules are run, what a run may spend, how
  input and output change hands, what is reported, and what holds of guest and
  host together.
- `service`: what the program tells its users.
- `text`, `json`: texts and JSON values.

`app/` is the program around it: the command line, the HTTP endpoint, the
connections to the model and to the network, the Wasmtime engine, and the exports
of the agent module. `tests/` runs the library.

Functions marked `external_body` and `assume_specification` items state what the
library takes for granted of the standard library and of other crates.
