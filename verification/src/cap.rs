//! Canonical capability names understood by the host.

use vstd::prelude::*;

verus! {

/// List the tool specifications the policy currently permits.
pub const TOOLS_LIST: &'static str = "tools.list";

/// Invoke one of those tools.
pub const TOOL_INVOKE: &'static str = "tool.invoke";

/// Ask the model for the next step. Credentials never cross into the guest.
pub const LLM_COMPLETE: &'static str = "llm.complete";

} // verus!
