//! A sandbox that runs an AI agent as a WebAssembly module.

pub mod abi;
pub mod agent;
pub mod agent_laws;
pub mod agent_run;
pub mod call_laws;
pub mod cap;
pub mod error_code;
pub mod exports;
pub mod guest;
pub mod host;
pub mod host_laws;
pub mod json;
pub mod llm;
pub mod llm_laws;
pub mod mock;
pub mod mock_laws;
pub mod module;
pub mod policy;
pub mod policy_laws;
pub mod run_laws;
pub mod runtime;
pub mod sandbox;
pub mod service;
pub mod text;
pub mod text_laws;
pub mod tool_call_laws;
pub mod tool_laws;
pub mod tools;
pub mod view_laws;
pub mod wire;
pub mod wire_laws;
