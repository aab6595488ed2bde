//! The sandbox policy: everything the agent is allowed to consume and reach.
//!
//! The policy is data, not code. Nothing in the guest can read it, argue with
//! it, or change it: the host consults it on every capability call.

use vstd::prelude::*;
use vstd::string::*;

use crate::text::{
    ascii_lower, begins_with, chars_of, finishes_with, lowered, quoted, texts, trim, trimmed,
};
use crate::tools::{is_known_tool, known_tool};

verus! {

#[derive(Debug, Clone)]
pub struct Policy {
    pub limits: Limits,
    pub llm: LlmConfig,
    pub tools: ToolsConfig,
}

#[derive(Debug, Clone)]
pub struct Limits {
    /// Fuel budget for the whole run. Bounds guest compute.
    pub fuel: u64,
    /// Total wall-clock budget for the run, enforced by epoch interruption.
    pub wall_clock_ms: u64,
    /// Ceiling on the guest's linear memory.
    pub memory_bytes: usize,
    /// Ceiling on guest table elements (indirect-call slots).
    pub table_elements: usize,
    /// Host-side cap on model turns, independent of what the guest asks for.
    pub max_steps: u32,
    /// Cap on bytes the guest may hand the host in a single capability call.
    pub max_request_bytes: usize,
}

#[derive(Debug, Clone, Copy, PartialEq, Eq, Structural)]
pub enum Provider {
    /// Call the Anthropic Messages API.
    Anthropic,
    /// Deterministic offline stand-in, for tests and demos without a key.
    Mock,
}

#[derive(Debug, Clone, Copy, PartialEq, Eq, Structural)]
pub enum Effort {
    Low,
    Medium,
    High,
    XHigh,
    Max,
}

#[derive(Debug, Clone, Copy, PartialEq, Eq, Structural)]
pub enum Thinking {
    Adaptive,
    Disabled,
}

#[derive(Debug, Clone)]
pub struct LlmConfig {
    pub provider: Provider,
    pub model: String,
    pub max_tokens: u32,
    pub effort: Effort,
    pub thinking: Thinking,
    /// Whether to ask for summarized reasoning. The default of the API is to
    /// omit it, which streams empty thinking text.
    pub summarize_thinking: bool,
    pub base_url: String,
    pub api_version: String,
    /// Environment variable holding the API key. The key itself never appears
    /// in the policy file, and never crosses into the guest.
    pub api_key_env: String,
    pub request_timeout_ms: u64,
    pub max_retries: u32,
    /// Ask the API to re-run a policy-declined request on a recommended
    /// fallback model inside the same call. Without it, a refusal simply stops.
    pub server_side_fallback: bool,
}

#[derive(Debug, Clone)]
pub struct ToolsConfig {
    /// Allowlist. A tool not named here does not exist as far as the agent knows.
    pub enabled: Vec<String>,
    pub http: HttpToolConfig,
    pub kv: KvToolConfig,
}

#[derive(Debug, Clone)]
pub struct HttpToolConfig {
    /// Hosts the agent may fetch. Empty means the tool can reach nothing, even
    /// when it is listed in `enabled`.
    pub allowed_hosts: Vec<String>,
    pub max_response_bytes: usize,
    pub timeout_ms: u64,
}

#[derive(Debug, Clone)]
pub struct KvToolConfig {
    pub max_keys: usize,
    pub max_value_bytes: usize,
}

// ---------------------------------------------------------------------------
// Validation
// ---------------------------------------------------------------------------

/// What is wrong with a policy.
#[derive(Debug)]
pub enum PolicyError {
    NoFuel,
    NoWallClock,
    NoSteps,
    TooLittleMemory,
    /// Thinking is disabled at an effort that the API only takes with thinking.
    ThinkingDisabled(Effort),
    /// A tool is enabled that this host does not know.
    UnknownTool(String),
}

/// The contents of a [`PolicyError`].
pub enum PolicyErrorView {
    NoFuel,
    NoWallClock,
    NoSteps,
    TooLittleMemory,
    ThinkingDisabled(Effort),
    UnknownTool(Seq<char>),
}

impl View for PolicyError {
    type V = PolicyErrorView;

    open spec fn view(&self) -> PolicyErrorView {
        match self {
            PolicyError::NoFuel => PolicyErrorView::NoFuel,
            PolicyError::NoWallClock => PolicyErrorView::NoWallClock,
            PolicyError::NoSteps => PolicyErrorView::NoSteps,
            PolicyError::TooLittleMemory => PolicyErrorView::TooLittleMemory,
            PolicyError::ThinkingDisabled(effort) => PolicyErrorView::ThinkingDisabled(*effort),
            PolicyError::UnknownTool(name) => PolicyErrorView::UnknownTool(name@),
        }
    }
}

impl PolicyErrorView {
    /// The error in words.
    pub open spec fn message(self) -> Seq<char> {
        match self {
            PolicyErrorView::NoFuel => "limits.fuel must be greater than zero"@,
            PolicyErrorView::NoWallClock => "limits.wall_clock_ms must be greater than zero"@,
            PolicyErrorView::NoSteps => "limits.max_steps must be greater than zero"@,
            PolicyErrorView::TooLittleMemory => "limits.memory_bytes must be at least 1 MiB"@,
            PolicyErrorView::ThinkingDisabled(effort) => {
                "llm.thinking = \"disabled\" is only valid at effort \"high\" or lower (got "@
                    + effort.variant() + "); raise thinking or lower effort"@
            },
            PolicyErrorView::UnknownTool(name) => {
                "tools.enabled lists unknown tool "@ + crate::text::debug_text(name)
            },
        }
    }
}

impl PolicyError {
    /// The error in words.
    pub fn message(&self) -> (text: String)
        ensures
            text@ == self@.message(),
    {
        match self {
            PolicyError::NoFuel => "limits.fuel must be greater than zero".to_string(),
            PolicyError::NoWallClock => {
                "limits.wall_clock_ms must be greater than zero".to_string()
            },
            PolicyError::NoSteps => "limits.max_steps must be greater than zero".to_string(),
            PolicyError::TooLittleMemory => "limits.memory_bytes must be at least 1 MiB".to_string(),
            PolicyError::ThinkingDisabled(effort) => {
                let mut text =
                    "llm.thinking = \"disabled\" is only valid at effort \"high\" or lower (got ".to_string();
                text.append(effort.variant_name());
                text.append("); raise thinking or lower effort");
                text
            },
            PolicyError::UnknownTool(name) => {
                let mut text = "tools.enabled lists unknown tool ".to_string();
                text.append(quoted(name.as_str()).as_str());
                text
            },
        }
    }
}

/// The first of `names` that is no known tool.
pub open spec fn first_unknown(names: Seq<Seq<char>>) -> Option<Seq<char>>
    decreases names.len(),
{
    if names.len() == 0 {
        None
    } else {
        match first_unknown(names.drop_last()) {
            Some(name) => Some(name),
            None => if known_tool(names.last()) {
                None
            } else {
                Some(names.last())
            },
        }
    }
}

/// There is a first unknown name exactly where some name is unknown.
pub(crate) proof fn lemma_first_unknown(names: Seq<Seq<char>>)
    ensures
        first_unknown(names) is None <==> (forall|i: int|
            0 <= i < names.len() ==> known_tool(#[trigger] names[i])),
    decreases names.len(),
{
    if names.len() > 0 {
        let rest = names.drop_last();
        lemma_first_unknown(rest);
        if forall|i: int| 0 <= i < names.len() ==> known_tool(#[trigger] names[i]) {
            assert forall|i: int| 0 <= i < rest.len() implies known_tool(#[trigger] rest[i]) by {
                assert(rest[i] == names[i]);
            }
            assert(known_tool(names[names.len() - 1]));
        }
        if first_unknown(names) is None {
            assert forall|i: int| 0 <= i < names.len() implies known_tool(#[trigger] names[i]) by {
                if i < rest.len() {
                    assert(rest[i] == names[i]);
                }
            }
        }
    }
}

/// The least memory that a policy may grant.
pub const MIN_MEMORY_BYTES: usize = 1_048_576;

impl Policy {
    /// The first rule that the policy breaks.
    pub open spec fn fault(self) -> Option<PolicyErrorView> {
        if self.limits.fuel == 0 {
            Some(PolicyErrorView::NoFuel)
        } else if self.limits.wall_clock_ms == 0 {
            Some(PolicyErrorView::NoWallClock)
        } else if self.limits.max_steps == 0 {
            Some(PolicyErrorView::NoSteps)
        } else if self.limits.memory_bytes < MIN_MEMORY_BYTES {
            Some(PolicyErrorView::TooLittleMemory)
        } else if self.llm.thinking == Thinking::Disabled && (self.llm.effort == Effort::XHigh
            || self.llm.effort == Effort::Max) {
            Some(PolicyErrorView::ThinkingDisabled(self.llm.effort))
        } else {
            match first_unknown(texts(self.tools.enabled@)) {
                Some(name) => Some(PolicyErrorView::UnknownTool(name)),
                None => None,
            }
        }
    }

    /// Whether the policy can be run under.
    pub open spec fn valid(self) -> bool {
        &&& self.limits.fuel > 0
        &&& self.limits.wall_clock_ms > 0
        &&& self.limits.max_steps > 0
        &&& self.limits.memory_bytes >= MIN_MEMORY_BYTES
        &&& self.llm.thinking == Thinking::Disabled ==> self.llm.effort != Effort::XHigh
            && self.llm.effort != Effort::Max
        &&& forall|i: int|
            0 <= i < self.tools.enabled@.len() ==> known_tool(
                #[trigger] texts(self.tools.enabled@)[i],
            )
    }

    /// Reject configurations the API would reject at request time, so a bad
    /// policy fails at startup instead of halfway through someone's run.
    pub fn validate(&self) -> (verdict: Result<(), PolicyError>)
        ensures
            verdict is Ok <==> self.valid(),
            verdict is Ok <==> self.fault() is None,
            verdict is Err ==> self.fault() == Some(verdict->Err_0@),
    {
        proof {
            lemma_first_unknown(texts(self.tools.enabled@));
        }
        if self.limits.fuel == 0 {
            return Err(PolicyError::NoFuel);
        }
        if self.limits.wall_clock_ms == 0 {
            return Err(PolicyError::NoWallClock);
        }
        if self.limits.max_steps == 0 {
            return Err(PolicyError::NoSteps);
        }
        if self.limits.memory_bytes < MIN_MEMORY_BYTES {
            return Err(PolicyError::TooLittleMemory);
        }
        if self.llm.thinking == Thinking::Disabled && (self.llm.effort == Effort::XHigh
            || self.llm.effort == Effort::Max) {
            return Err(PolicyError::ThinkingDisabled(self.llm.effort));
        }
        let names = &self.tools.enabled;
        let mut i: usize = 0;
        while i < names.len()
            invariant
                i <= names.len(),
                names == self.tools.enabled,
                self.fault() == (match first_unknown(texts(names@)) {
                    Some(name) => Some(PolicyErrorView::UnknownTool(name)),
                    None => None,
                }),
                first_unknown(texts(names@)) is None <==> self.valid(),
                first_unknown(texts(names@).take(i as int)) is None,
            decreases names.len() - i,
        {
            let ghost shown = texts(names@);
            proof {
                assert(shown.take(i + 1).drop_last() =~= shown.take(i as int));
            }
            if !is_known_tool(names[i].as_str()) {
                proof {
                    lemma_first_unknown_extends(shown, i + 1);
                }
                return Err(PolicyError::UnknownTool(names[i].clone()));
            }
            i = i + 1;
        }
        proof {
            assert(texts(names@).take(names@.len() as int) =~= texts(names@));
        }
        Ok(())
    }
}

/// The first unknown name of a prefix is the first of the whole.
proof fn lemma_first_unknown_extends(names: Seq<Seq<char>>, k: int)
    requires
        0 <= k <= names.len(),
        first_unknown(names.take(k)) is Some,
    ensures
        first_unknown(names) == first_unknown(names.take(k)),
    decreases names.len(),
{
    if k < names.len() {
        assert(names.drop_last().take(k) =~= names.take(k));
        lemma_first_unknown_extends(names.drop_last(), k);
    } else {
        assert(names.take(k) =~= names);
    }
}

impl Effort {
    /// The effort as the API spells it.
    pub open spec fn label(self) -> Seq<char> {
        match self {
            Effort::Low => "low"@,
            Effort::Medium => "medium"@,
            Effort::High => "high"@,
            Effort::XHigh => "xhigh"@,
            Effort::Max => "max"@,
        }
    }

    /// The name of the variant.
    pub open spec fn variant(self) -> Seq<char> {
        match self {
            Effort::Low => "Low"@,
            Effort::Medium => "Medium"@,
            Effort::High => "High"@,
            Effort::XHigh => "XHigh"@,
            Effort::Max => "Max"@,
        }
    }

    pub fn as_str(self) -> (label: &'static str)
        ensures
            label@ == self.label(),
    {
        match self {
            Effort::Low => "low",
            Effort::Medium => "medium",
            Effort::High => "high",
            Effort::XHigh => "xhigh",
            Effort::Max => "max",
        }
    }

    /// The name of the variant.
    pub fn variant_name(self) -> (name: &'static str)
        ensures
            name@ == self.variant(),
    {
        match self {
            Effort::Low => "Low",
            Effort::Medium => "Medium",
            Effort::High => "High",
            Effort::XHigh => "XHigh",
            Effort::Max => "Max",
        }
    }
}

// ---------------------------------------------------------------------------
// Defaults
// ---------------------------------------------------------------------------

impl Default for Limits {
    fn default() -> (limits: Limits)
        ensures
            limits == (Limits {
                fuel: 1_000_000_000,
                wall_clock_ms: 120_000,
                memory_bytes: 67_108_864,
                table_elements: 10_000,
                max_steps: 8,
                max_request_bytes: 4_194_304,
            }),
    {
        Limits {
            fuel: 1_000_000_000,
            wall_clock_ms: 120_000,
            memory_bytes: 64 * 1024 * 1024,
            table_elements: 10_000,
            max_steps: 8,
            max_request_bytes: 4 * 1024 * 1024,
        }
    }
}

impl Default for LlmConfig {
    fn default() -> (config: LlmConfig)
        ensures
            config.provider == Provider::Anthropic,
            config.model@ == "opus-5"@,
            config.max_tokens == 8192,
            config.effort == Effort::High,
            config.thinking == Thinking::Adaptive,
            !config.summarize_thinking,
            config.base_url@ == "https://api.anthropic.com"@,
            config.api_version@ == "2023-06-01"@,
            config.api_key_env@ == "ANTHROPIC_API_KEY"@,
            config.request_timeout_ms == 600_000,
            config.max_retries == 2,
            config.server_side_fallback,
    {
        LlmConfig {
            provider: Provider::Anthropic,
            model: "opus-5".to_string(),
            max_tokens: 8192,
            effort: Effort::High,
            thinking: Thinking::Adaptive,
            summarize_thinking: false,
            base_url: "https://api.anthropic.com".to_string(),
            api_version: "2023-06-01".to_string(),
            api_key_env: "ANTHROPIC_API_KEY".to_string(),
            request_timeout_ms: 600_000,
            max_retries: 2,
            server_side_fallback: true,
        }
    }
}

impl Default for HttpToolConfig {
    fn default() -> (config: HttpToolConfig)
        ensures
            config.allowed_hosts@.len() == 0,
            config.max_response_bytes == 65_536,
            config.timeout_ms == 15_000,
    {
        HttpToolConfig {
            allowed_hosts: Vec::new(),
            max_response_bytes: 64 * 1024,
            timeout_ms: 15_000,
        }
    }
}

impl Default for KvToolConfig {
    fn default() -> (config: KvToolConfig)
        ensures
            config == (KvToolConfig { max_keys: 128, max_value_bytes: 16_384 }),
    {
        KvToolConfig { max_keys: 128, max_value_bytes: 16 * 1024 }
    }
}

impl Default for ToolsConfig {
    fn default() -> (config: ToolsConfig)
        ensures
            texts(config.enabled@) == seq!["now"@, "kv_get"@, "kv_put"@],
            config.http.allowed_hosts@.len() == 0,
            config.http.max_response_bytes == 65_536,
            config.http.timeout_ms == 15_000,
            config.kv == (KvToolConfig { max_keys: 128, max_value_bytes: 16_384 }),
    {
        let mut enabled: Vec<String> = Vec::new();
        enabled.push("now".to_string());
        enabled.push("kv_get".to_string());
        enabled.push("kv_put".to_string());
        proof {
            assert(texts(enabled@) =~= seq!["now"@, "kv_get"@, "kv_put"@]);
        }
        ToolsConfig { enabled, http: HttpToolConfig::default(), kv: KvToolConfig::default() }
    }
}

impl Default for Policy {
    /// The built-in policy. It is valid.
    fn default() -> (policy: Policy)
        ensures
            policy.valid(),
            policy.limits == (Limits {
                fuel: 1_000_000_000,
                wall_clock_ms: 120_000,
                memory_bytes: 67_108_864,
                table_elements: 10_000,
                max_steps: 8,
                max_request_bytes: 4_194_304,
            }),
            policy.llm.provider == Provider::Anthropic,
            policy.llm.model@ == "opus-5"@,
            policy.llm.max_tokens == 8192,
            policy.llm.effort == Effort::High,
            policy.llm.thinking == Thinking::Adaptive,
            !policy.llm.summarize_thinking,
            policy.llm.base_url@ == "https://api.anthropic.com"@,
            policy.llm.api_version@ == "2023-06-01"@,
            policy.llm.api_key_env@ == "ANTHROPIC_API_KEY"@,
            policy.llm.request_timeout_ms == 600_000,
            policy.llm.max_retries == 2,
            policy.llm.server_side_fallback,
            texts(policy.tools.enabled@) == seq!["now"@, "kv_get"@, "kv_put"@],
            policy.tools.http.allowed_hosts@.len() == 0,
            policy.tools.http.max_response_bytes == 65_536,
            policy.tools.http.timeout_ms == 15_000,
            policy.tools.kv == (KvToolConfig { max_keys: 128, max_value_bytes: 16_384 }),
    {
        let policy = Policy {
            limits: Limits::default(),
            llm: LlmConfig::default(),
            tools: ToolsConfig::default(),
        };
        proof {
            let names = texts(policy.tools.enabled@);
            assert(names.len() == policy.tools.enabled@.len());
            assert(names[0] == "now"@ && names[1] == "kv_get"@ && names[2] == "kv_put"@);
        }
        policy
    }
}

// ---------------------------------------------------------------------------
// The allowlist
// ---------------------------------------------------------------------------

/// Whether one rule of an allowlist covers a host: an exact match, or for a rule
/// of the form `*.suffix` the suffix itself and whatever ends with a dot and the
/// suffix. Letter case and the white space around a rule do not count.
pub open spec fn rule_covers(rule: Seq<char>, host: Seq<char>) -> bool {
    rule_covers_lower(rule, ascii_lower(host))
}

/// Whether one rule covers a host whose name is in lower case already.
pub open spec fn rule_covers_lower(rule: Seq<char>, host: Seq<char>) -> bool {
    let rule = ascii_lower(trim(rule));
    if "*."@.is_prefix_of(rule) {
        let suffix = rule.skip(2);
        host == suffix || ("."@ + suffix).is_suffix_of(host)
    } else {
        host == rule
    }
}

impl HttpToolConfig {
    /// Whether some rule covers a host.
    pub open spec fn covers(self, host: Seq<char>) -> bool {
        exists|i: int|
            0 <= i < self.allowed_hosts@.len() && rule_covers(
                #[trigger] texts(self.allowed_hosts@)[i],
                host,
            )
    }

    /// Exact host match, or a `*.example.com` suffix match. Never a substring
    /// match: `evil-example.com` must not pass a rule for `example.com`.
    pub fn allows(&self, host: &str) -> (allowed: bool)
        ensures
            allowed == self.covers(host@),
    {
        let host_chars = chars_of(host);
        let lower_host = lowered(host_chars.as_slice());
        let mut i: usize = 0;
        while i < self.allowed_hosts.len()
            invariant
                i <= self.allowed_hosts.len(),
                lower_host@ == ascii_lower(host@),
                forall|k: int|
                    0 <= k < i ==> !rule_covers(#[trigger] texts(self.allowed_hosts@)[k], host@),
            decreases self.allowed_hosts.len() - i,
        {
            if covers_lowered(self.allowed_hosts[i].as_str(), lower_host.as_slice()) {
                assert(rule_covers(texts(self.allowed_hosts@)[i as int], host@));
                return true;
            }
            i = i + 1;
        }
        false
    }
}

/// Whether one rule covers a host whose name is in lower case already.
fn covers_lowered(rule: &str, host: &[char]) -> (covered: bool)
    ensures
        covered == rule_covers_lower(rule@, host@),
{
    let rule_chars = chars_of(rule);
    let rule = lowered(trimmed(rule_chars.as_slice()));
    let wildcard: Vec<char> = chars_of("*.");
    proof {
        reveal_strlit("*.");
        reveal_strlit(".");
    }
    if begins_with(rule.as_slice(), wildcard.as_slice()) {
        let suffix = vstd::slice::slice_subrange(rule.as_slice(), 2, rule.len());
        let dotted = vstd::slice::slice_subrange(rule.as_slice(), 1, rule.len());
        proof {
            assert(suffix@ =~= rule@.skip(2));
            assert(rule@[1] == rule@.subrange(0, 2)[1]);
            assert(dotted@ =~= "."@ + suffix@);
            assert(host@ == suffix@ <==> suffix@.is_prefix_of(host@) && host@.len() == suffix@.len())
                by {
                assert(host@.subrange(0, host@.len() as int) =~= host@);
            }
        }
        (host.len() == suffix.len() && begins_with(host, suffix)) || finishes_with(host, dotted)
    } else {
        proof {
            assert(host@ == rule@ <==> rule@.is_prefix_of(host@) && host@.len() == rule@.len()) by {
                assert(host@.subrange(0, host@.len() as int) =~= host@);
            }
        }
        host.len() == rule.len() && begins_with(host, rule.as_slice())
    }
}

/// The case of a host's letters makes no difference to the allowlist.
pub proof fn law_allowlist_ignores_case(config: HttpToolConfig, host: Seq<char>, other: Seq<char>)
    requires
        ascii_lower(host) == ascii_lower(other),
    ensures
        config.covers(host) == config.covers(other),
{
    assert forall|i: int| 0 <= i < config.allowed_hosts@.len() implies rule_covers(
        #[trigger] texts(config.allowed_hosts@)[i],
        host,
    ) == rule_covers(texts(config.allowed_hosts@)[i], other) by {}
}

/// An empty allowlist reaches nothing.
pub proof fn law_empty_allowlist_reaches_nothing(config: HttpToolConfig, host: Seq<char>)
    requires
        config.allowed_hosts@.len() == 0,
    ensures
        !config.covers(host),
{
}

/// No rule is a substring match: a host that a rule covers is the rule's name in
/// full, or a wildcard rule's name after a dot.
pub proof fn law_no_lookalikes(rule: Seq<char>, host: Seq<char>)
    requires
        rule_covers(rule, host),
        ascii_lower(host) != ascii_lower(trim(rule)),
    ensures
        "*."@.is_prefix_of(ascii_lower(trim(rule))),
        ascii_lower(host) == ascii_lower(trim(rule)).skip(2) || ({
            let suffix = ascii_lower(trim(rule)).skip(2);
            let at = host.len() - suffix.len() - 1;
            &&& at >= 0
            &&& ascii_lower(host)[at] == '.'
            &&& ascii_lower(host).skip(at + 1) == suffix
        }),
{
    reveal_strlit(".");
    let lower = ascii_lower(host);
    let suffix = ascii_lower(trim(rule)).skip(2);
    if lower != suffix {
        let dotted = "."@ + suffix;
        let at = lower.len() - dotted.len();
        let tail = lower.subrange(at, lower.len() as int);
        assert(dotted =~= tail);
        assert(lower[at] == tail[0]);
        assert(lower.skip(at + 1) =~= suffix) by {
            assert forall|i: int| 0 <= i < suffix.len() implies lower.skip(at + 1)[i] == suffix[i] by {
                assert(tail[i + 1] == dotted[i + 1]);
            }
        }
    }
}

/// An allowlist only grows as rules are added.
pub proof fn law_allowlist_is_monotone(
    config: HttpToolConfig,
    wider: HttpToolConfig,
    host: Seq<char>,
)
    requires
        config.covers(host),
        texts(config.allowed_hosts@).to_set().subset_of(texts(wider.allowed_hosts@).to_set()),
    ensures
        wider.covers(host),
{
    let mine = texts(config.allowed_hosts@);
    let theirs = texts(wider.allowed_hosts@);
    let i = choose|i: int| 0 <= i < mine.len() && rule_covers(#[trigger] mine[i], host);
    assert(mine.to_set().contains(mine[i]));
    assert(theirs.contains(mine[i]));
    let j = choose|j: int| 0 <= j < theirs.len() && theirs[j] == mine[i];
    assert(rule_covers(theirs[j], host));
}

} // verus!
