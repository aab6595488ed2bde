//! Model access, held entirely on the host side of the sandbox.
//!
//! The guest asks for a completion; the host decides which model answers, with
//! which credentials, at which endpoint. The API key is read from the host
//! environment and never enters guest memory.

use vstd::prelude::*;
use vstd::string::*;

use crate::abi::{
    blocks, upstream_error, CapError, CapErrorView, Content, LlmRequest, LlmRequestView, LlmResponse,
    LlmResponseView, Usage,
};
use crate::json::{
    json_number, json_object, json_string, json_tree, member_tree, no_members, put, JsonTree,
};
use crate::mock::MockProvider;
use crate::policy::{LlmConfig, Provider, Thinking};
use crate::text::{
    byte_len, decimal, fitting, fitting_prefix, is_blank, len_of, number_of, opt_text, parse_number, push_decimal,
    trim, trim_end_while, trim_slashes,
};
use crate::wire::{message_trees, messages_json, tool_trees, tools_json};

verus! {

/// Beta flag for the server-side `fallbacks` parameter. On a policy decline the
/// API re-runs the request on a recommended model inside the same call, so a
/// benign request that trips a classifier still gets answered.
pub const FALLBACK_BETA: &'static str = "server-side-fallback-2026-07-01";

/// A model that answers the agent. Callers supply their own.
pub trait LlmProvider: Send + Sync {
    fn complete(&self, request: &LlmRequest) -> Result<LlmResponse, CapError>;

    fn describe(&self) -> String;
}

/// The model access that a configuration asks for.
pub enum ModelAccess {
    Mock(MockProvider),
    Anthropic(AnthropicProvider),
}

/// Sets up the model access that a configuration asks for, given the value of
/// the environment variable that it names.
pub fn build(config: LlmConfig, api_key: Option<String>) -> (access: Result<ModelAccess, KeyError>)
    ensures
        match access {
            Ok(ModelAccess::Mock(_)) => config.provider == Provider::Mock,
            Ok(ModelAccess::Anthropic(provider)) => {
                &&& config.provider == Provider::Anthropic
                &&& usable_key(opt_text(api_key))
                &&& provider.config() == config
                &&& provider.api_key() == opt_text(api_key)->Some_0
            },
            Err(error) => {
                &&& config.provider == Provider::Anthropic
                &&& !usable_key(opt_text(api_key))
                &&& error.message() == key_error(config.api_key_env@, opt_text(api_key))
            },
        },
{
    match config.provider {
        Provider::Mock => Ok(ModelAccess::Mock(MockProvider)),
        Provider::Anthropic => match AnthropicProvider::new(config, api_key) {
            Ok(provider) => Ok(ModelAccess::Anthropic(provider)),
            Err(error) => Err(error),
        },
    }
}

// ---------------------------------------------------------------------------
// Anthropic Messages API
// ---------------------------------------------------------------------------

/// Why there is no usable API key.
#[derive(Debug)]
pub enum KeyError {
    /// The variable of this name is not set.
    NotSet(String),
    /// The variable of this name holds nothing.
    Empty(String),
}

/// Whether the value of an environment variable can serve as a key.
pub open spec fn usable_key(value: Option<Seq<char>>) -> bool {
    value is Some && trim(value->Some_0).len() > 0
}

/// Why the value of an environment variable cannot serve as a key.
pub open spec fn key_error(variable: Seq<char>, value: Option<Seq<char>>) -> Seq<char> {
    match value {
        None => variable
            + " is not set; export an API key or set llm.provider = \"mock\" in the policy"@,
        Some(_) => variable + " is set but empty"@,
    }
}

impl KeyError {
    /// The error in words.
    pub open spec fn message(self) -> Seq<char> {
        match self {
            KeyError::NotSet(variable) => variable@
                + " is not set; export an API key or set llm.provider = \"mock\" in the policy"@,
            KeyError::Empty(variable) => variable@ + " is set but empty"@,
        }
    }

    /// The error in words.
    pub fn text(&self) -> (text: String)
        ensures
            text@ == self.message(),
    {
        match self {
            KeyError::NotSet(variable) => {
                let mut text = variable.clone();
                text.append(
                    " is not set; export an API key or set llm.provider = \"mock\" in the policy",
                );
                text
            },
            KeyError::Empty(variable) => {
                let mut text = variable.clone();
                text.append(" is set but empty");
                text
            },
        }
    }
}

/// The host's side of the Messages API, but for the connection.
pub struct AnthropicProvider {
    config: LlmConfig,
    api_key: String,
}

/// How the model is asked to think.
pub open spec fn thinking_tree(config: LlmConfig) -> JsonTree {
    JsonTree::Object(
        match config.thinking {
            Thinking::Adaptive => {
                let adaptive = map!["type"@ => JsonTree::Text("adaptive"@)];
                if config.summarize_thinking {
                    adaptive.insert("display"@, JsonTree::Text("summarized"@))
                } else {
                    adaptive
                }
            },
            Thinking::Disabled => map!["type"@ => JsonTree::Text("disabled"@)],
        },
    )
}

/// The members that go with every request. Note what is not here: no
/// temperature, top_p, or top_k. Current models reject them outright.
pub open spec fn common_members(config: LlmConfig, request: LlmRequestView) -> Map<
    Seq<char>,
    JsonTree,
> {
    map![
        "model"@ => JsonTree::Text(config.model@),
        "max_tokens"@ => JsonTree::Number(decimal(config.max_tokens as nat)),
        "messages"@ => JsonTree::List(message_trees(request.messages)),
        "output_config"@ => JsonTree::Object(
            map!["effort"@ => JsonTree::Text(config.effort.label())],
        ),
        "thinking"@ => thinking_tree(config),
    ]
}

/// The members with one more, if there is one more.
pub open spec fn with_member(
    members: Map<Seq<char>, JsonTree>,
    name: Seq<char>,
    value: Option<JsonTree>,
) -> Map<Seq<char>, JsonTree> {
    match value {
        Some(value) => members.insert(name, value),
        None => members,
    }
}

/// The body that a configuration makes of a request: the common members; the
/// system prompt and the tools if there are any; and the wish for a fallback if
/// it is configured.
pub open spec fn body_of(config: LlmConfig, request: LlmRequestView) -> JsonTree {
    let system = match request.system {
        Some(system) => Some(JsonTree::Text(system)),
        None => None,
    };
    let tools = if request.tools.len() > 0 {
        Some(JsonTree::List(tool_trees(request.tools)))
    } else {
        None
    };
    let fallbacks = if config.server_side_fallback {
        Some(JsonTree::Text("default"@))
    } else {
        None
    };
    let members = with_member(common_members(config, request), "system"@, system);
    JsonTree::Object(
        with_member(with_member(members, "tools"@, tools), "fallbacks"@, fallbacks),
    )
}

/// The names and values of a request's headers.
pub open spec fn header_views(headers: Seq<(&'static str, String)>) -> Seq<(Seq<char>, Seq<char>)> {
    headers.map_values(|h: (&'static str, String)| (h.0@, h.1@))
}

/// The headers that a configuration sends with a key.
pub open spec fn headers_of(config: LlmConfig, api_key: Seq<char>) -> Seq<(Seq<char>, Seq<char>)> {
    let common = seq![
        ("x-api-key"@, api_key),
        ("anthropic-version"@, config.api_version@),
        ("content-type"@, "application/json"@),
    ];
    if config.server_side_fallback {
        common.push(("anthropic-beta"@, FALLBACK_BETA@))
    } else {
        common
    }
}

impl AnthropicProvider {
    /// The configuration in use.
    pub closed spec fn config(self) -> LlmConfig {
        self.config
    }

    /// The key in use.
    pub closed spec fn api_key(self) -> Seq<char> {
        self.api_key@
    }

    /// Access with a key, given the value of the environment variable that the
    /// configuration names.
    pub fn new(config: LlmConfig, api_key: Option<String>) -> (provider: Result<
        AnthropicProvider,
        KeyError,
    >)
        ensures
            provider is Ok <==> usable_key(opt_text(api_key)),
            match provider {
                Ok(provider) => {
                    &&& provider.config() == config
                    &&& provider.api_key() == opt_text(api_key)->Some_0
                },
                Err(error) => error.message() == key_error(config.api_key_env@, opt_text(api_key)),
            },
    {
        match api_key {
            None => Err(KeyError::NotSet(config.api_key_env)),
            Some(api_key) => if is_blank(api_key.as_str()) {
                Err(KeyError::Empty(config.api_key_env))
            } else {
                Ok(AnthropicProvider { config, api_key })
            },
        }
    }

    /// How long to wait for the API, in milliseconds. The timeout is generous on
    /// purpose: a single agentic turn at high effort can run for minutes.
    pub fn request_timeout_ms(&self) -> (ms: u64)
        ensures
            ms == self.config().request_timeout_ms,
    {
        self.config.request_timeout_ms
    }

    /// The address that requests go to.
    pub fn url(&self) -> (url: String)
        ensures
            url@ == trim_end_while(self.config().base_url@, |c: char| c == '/') + "/v1/messages"@,
    {
        let mut url = trim_slashes(self.config.base_url.as_str());
        url.append("/v1/messages");
        url
    }

    /// The headers that go with every request.
    pub fn headers(&self) -> (headers: Vec<(&'static str, String)>)
        ensures
            header_views(headers@) == headers_of(self.config(), self.api_key()),
    {
        let mut headers: Vec<(&'static str, String)> = Vec::new();
        headers.push(("x-api-key", self.api_key.clone()));
        headers.push(("anthropic-version", self.config.api_version.clone()));
        headers.push(("content-type", "application/json".to_string()));
        if self.config.server_side_fallback {
            headers.push(("anthropic-beta", FALLBACK_BETA.to_string()));
        }
        proof {
            assert(header_views(headers@) =~= headers_of(self.config(), self.api_key()));
        }
        headers
    }

    /// The body of a request.
    pub fn body(&self, request: &LlmRequest) -> (body: serde_json::Value)
        ensures
            json_tree(body) == body_of(self.config(), request@),
    {
        let mut thinking = no_members();
        match self.config.thinking {
            Thinking::Adaptive => {
                put(&mut thinking, "type", json_string("adaptive"));
                if self.config.summarize_thinking {
                    put(&mut thinking, "display", json_string("summarized"));
                }
            },
            Thinking::Disabled => put(&mut thinking, "type", json_string("disabled")),
        }
        let mut output = no_members();
        put(&mut output, "effort", json_string(self.config.effort.as_str()));
        let mut body = no_members();
        put(&mut body, "model", json_string(self.config.model.as_str()));
        put(&mut body, "max_tokens", json_number(self.config.max_tokens));
        put(&mut body, "messages", messages_json(&request.messages));
        put(&mut body, "output_config", json_object(output));
        put(&mut body, "thinking", json_object(thinking));
        if let Some(system) = &request.system {
            put(&mut body, "system", json_string(system.as_str()));
        }
        if request.tools.len() > 0 {
            put(&mut body, "tools", tools_json(&request.tools));
        }
        if self.config.server_side_fallback {
            put(&mut body, "fallbacks", json_string("default"));
        }
        json_object(body)
    }

    /// The exchange that a completion is.
    pub fn exchange(&self) -> (exchange: Exchange)
        ensures
            exchange == (Exchange { attempt: 0, max_retries: self.config().max_retries }),
    {
        Exchange { attempt: 0, max_retries: self.config.max_retries }
    }

    /// The name under which a run is reported.
    pub fn describe(&self) -> (name: String)
        ensures
            name@ == "anthropic:"@ + self.config().model@,
    {
        let mut name = "anthropic:".to_string();
        name.append(self.config.model.as_str());
        name
    }
}

/// Nothing is sent but the eight members named here, whatever the configuration
/// and the request: in particular no sampling parameter, which current models
/// reject.
pub proof fn law_sampling_parameters_are_never_sent(
    config: LlmConfig,
    request: LlmRequestView,
    name: Seq<char>,
)
    ensures
        ({
            let sent = member_tree(body_of(config, request), name) is Some;
            &&& sent ==> name == "model"@ || name == "max_tokens"@ || name == "messages"@ || name
                == "output_config"@ || name == "thinking"@ || name == "system"@ || name == "tools"@
                || name == "fallbacks"@
            &&& name == "temperature"@ || name == "top_p"@ || name == "top_k"@ || name
                == "budget_tokens"@ ==> !sent
        }),
{
    reveal_strlit("model");
    reveal_strlit("max_tokens");
    reveal_strlit("messages");
    reveal_strlit("output_config");
    reveal_strlit("thinking");
    reveal_strlit("system");
    reveal_strlit("tools");
    reveal_strlit("fallbacks");
    reveal_strlit("temperature");
    reveal_strlit("top_p");
    reveal_strlit("top_k");
    reveal_strlit("budget_tokens");
    assert("model"@.len() == 5 && "model"@[0] == 'm');
    assert("max_tokens"@.len() == 10);
    assert("messages"@.len() == 8);
    assert("output_config"@.len() == 13 && "output_config"@[0] == 'o');
    assert("thinking"@.len() == 8);
    assert("system"@.len() == 6);
    assert("tools"@.len() == 5 && "tools"@[2] == 'o');
    assert("fallbacks"@.len() == 9);
    assert("temperature"@.len() == 11);
    assert("top_p"@.len() == 5 && "top_p"@[0] == 't' && "top_p"@[2] == 'p');
    assert("top_k"@.len() == 5 && "top_k"@[0] == 't' && "top_k"@[2] == 'p');
    assert("budget_tokens"@.len() == 13 && "budget_tokens"@[0] == 'b');
}

// ---------------------------------------------------------------------------
// Retries
// ---------------------------------------------------------------------------

/// How long to wait before the next attempt.
#[derive(Debug, Clone, Copy, PartialEq, Eq, Structural)]
pub enum Wait {
    Millis(u64),
    Seconds(u64),
}

/// A completion under way.
#[derive(Debug, Clone, Copy, PartialEq, Eq, Structural)]
pub struct Exchange {
    /// Attempts that have failed and been retried.
    pub attempt: u32,
    pub max_retries: u32,
}

/// What follows an attempt.
#[derive(Debug)]
pub enum Next {
    /// The attempt succeeded: its body is the answer.
    Accept,
    /// Wait, then send the request again.
    Retry(Wait),
    /// Give up.
    Fail(CapError),
}

/// The contents of a [`Next`].
pub enum NextView {
    Accept,
    Retry(Wait),
    Fail(CapErrorView),
}

impl View for Next {
    type V = NextView;

    open spec fn view(&self) -> NextView {
        match self {
            Next::Accept => NextView::Accept,
            Next::Retry(wait) => NextView::Retry(*wait),
            Next::Fail(error) => NextView::Fail(error@),
        }
    }
}

/// Two to the power of `n`.
pub open spec fn doubled(n: nat) -> nat
    decreases n,
{
    if n == 0 {
        1
    } else {
        2 * doubled((n - 1) as nat)
    }
}

/// The wait before a retry, in milliseconds: half a second, doubled with each
/// attempt up to the fifth.
pub open spec fn backoff_ms(attempt: u32) -> nat {
    500 * doubled(if attempt < 5 {
        attempt as nat
    } else {
        5
    })
}

pub fn backoff(attempt: u32) -> (ms: u64)
    ensures
        ms == backoff_ms(attempt),
        ms <= 16_000,
{
    let steps: u32 = if attempt < 5 {
        attempt
    } else {
        5
    };
    let mut ms: u64 = 500;
    let mut i: u32 = 0;
    while i < steps
        invariant
            i <= steps <= 5,
            ms == 500 * doubled(i as nat),
            i == 0 ==> ms <= 500,
            i == 1 ==> ms <= 1_000,
            i == 2 ==> ms <= 2_000,
            i == 3 ==> ms <= 4_000,
            i == 4 ==> ms <= 8_000,
            i == 5 ==> ms <= 16_000,
        decreases steps - i,
    {
        ms = ms * 2;
        i = i + 1;
    }
    ms
}

/// Whether a status reports success.
pub open spec fn is_success(status: u16) -> bool {
    200 <= status < 300
}

/// Whether a failed attempt may be repeated. 429 and 5xx are transient; any other
/// 4xx means the request itself is wrong and resending it unchanged will fail
/// identically.
pub open spec fn is_transient(status: u16) -> bool {
    status == 429 || 500 <= status < 600
}

/// The beginning of a text, marked where it was cut.
pub open spec fn shortened(s: Seq<char>, max: nat) -> Seq<char> {
    if byte_len(s) <= max {
        s
    } else {
        fitting(s, max) + "…"@
    }
}

/// The number of seconds that a `retry-after` header asks for.
pub open spec fn asked_wait(retry_after: Option<Seq<char>>) -> Option<nat> {
    match retry_after {
        Some(value) => number_of(value),
        None => None,
    }
}

impl Exchange {
    /// What follows an attempt that could not be sent.
    pub open spec fn after_send_error(self, error: Seq<char>) -> (Exchange, NextView) {
        if self.attempt < self.max_retries {
            let attempt = (self.attempt + 1) as u32;
            (
                Exchange { attempt, ..self },
                NextView::Retry(Wait::Millis(backoff_ms(attempt) as u64)),
            )
        } else {
            (self, NextView::Fail(upstream_error("request to the model failed: "@ + error)))
        }
    }

    /// What follows an attempt that was answered.
    pub open spec fn after_status(
        self,
        status: u16,
        retry_after: Option<Seq<char>>,
        detail: Seq<char>,
    ) -> (Exchange, NextView) {
        if is_success(status) {
            (self, NextView::Accept)
        } else if is_transient(status) && self.attempt < self.max_retries {
            let attempt = (self.attempt + 1) as u32;
            let wait = match asked_wait(retry_after) {
                Some(seconds) => Wait::Seconds(seconds as u64),
                None => Wait::Millis(backoff_ms(attempt) as u64),
            };
            (Exchange { attempt, ..self }, NextView::Retry(wait))
        } else {
            (
                self,
                NextView::Fail(
                    upstream_error(
                        "model returned HTTP "@ + decimal(status as nat) + ": "@ + shortened(
                            detail,
                            512,
                        ),
                    ),
                ),
            )
        }
    }

    /// Decides what follows an attempt that could not be sent.
    pub fn on_send_error(&mut self, error: &str) -> (next: Next)
        ensures
            (*final(self), next@) == old(self).after_send_error(error@),
    {
        if self.attempt < self.max_retries {
            self.attempt = self.attempt + 1;
            Next::Retry(Wait::Millis(backoff(self.attempt)))
        } else {
            let mut message = "request to the model failed: ".to_string();
            message.append(error);
            Next::Fail(CapError::upstream(message.as_str()))
        }
    }

    /// Decides what follows an attempt that was answered with a status, a
    /// `retry-after` header and, unless it succeeded, a text.
    pub fn on_status(&mut self, status: u16, retry_after: Option<String>, detail: &str) -> (next: Next)
        ensures
            (*final(self), next@) == old(self).after_status(status, opt_text(retry_after), detail@),
    {
        if 200 <= status && status < 300 {
            return Next::Accept;
        }
        let transient: bool = status == 429 || (500 <= status && status < 600);
        if transient && self.attempt < self.max_retries {
            self.attempt = self.attempt + 1;
            let asked = match retry_after {
                Some(value) => parse_number(value.as_str()),
                None => None,
            };
            return match asked {
                Some(seconds) => Next::Retry(Wait::Seconds(seconds)),
                None => Next::Retry(Wait::Millis(backoff(self.attempt))),
            };
        }
        let mut message = "model returned HTTP ".to_string();
        push_decimal(&mut message, status as u128);
        message.append(": ");
        message.append(truncate(detail, 512).as_str());
        Next::Fail(CapError::upstream(message.as_str()))
    }

    /// The failure to report when the body of a successful attempt cannot be
    /// decoded.
    pub fn on_malformed(&self, error: &str) -> (failure: CapError)
        ensures
            failure@ == upstream_error("malformed model response: "@ + error@),
    {
        let mut message = "malformed model response: ".to_string();
        message.append(error);
        CapError::upstream(message.as_str())
    }
}

/// An exchange is repeated at most as often as the policy allows: each retry
/// uses up one, and none is left to use beyond the last.
pub proof fn law_retries_are_bounded(
    exchange: Exchange,
    error: Seq<char>,
    status: u16,
    retry_after: Option<Seq<char>>,
    detail: Seq<char>,
)
    ensures
        exchange.after_send_error(error).1 is Retry ==> exchange.after_send_error(error).0.attempt
            == exchange.attempt + 1 <= exchange.max_retries,
        exchange.after_status(status, retry_after, detail).1 is Retry ==> exchange.after_status(
            status,
            retry_after,
            detail,
        ).0.attempt == exchange.attempt + 1 <= exchange.max_retries,
        exchange.after_send_error(error).0.max_retries == exchange.max_retries,
        exchange.after_status(status, retry_after, detail).0.max_retries == exchange.max_retries,
        exchange.attempt >= exchange.max_retries ==> exchange.after_send_error(error).1 is Fail
            && !(exchange.after_status(status, retry_after, detail).1 is Retry),
{
}

/// How an attempt came out.
pub enum AttemptView {
    /// It could not be sent.
    SendError(Seq<char>),
    /// It was answered, with a status, a `retry-after` header and a text.
    Answered(u16, Option<Seq<char>>, Seq<char>),
}

impl Exchange {
    /// What follows an attempt.
    pub open spec fn after(self, attempt: AttemptView) -> (Exchange, NextView) {
        match attempt {
            AttemptView::SendError(error) => self.after_send_error(error),
            AttemptView::Answered(status, retry_after, detail) => self.after_status(
                status,
                retry_after,
                detail,
            ),
        }
    }

    /// How many of these attempts are made: each is, until one is not followed
    /// by another.
    pub open spec fn made(self, attempts: Seq<AttemptView>) -> nat
        decreases attempts.len(),
    {
        if attempts.len() == 0 {
            0
        } else {
            let (later, next) = self.after(attempts[0]);
            if next is Retry {
                1 + later.made(attempts.drop_first())
            } else {
                1
            }
        }
    }
}

/// A completion makes one attempt and as many more as there are retries left,
/// whatever comes of them.
pub proof fn law_attempts_are_bounded(exchange: Exchange, attempts: Seq<AttemptView>)
    requires
        exchange.attempt <= exchange.max_retries,
    ensures
        exchange.made(attempts) <= exchange.max_retries - exchange.attempt + 1,
    decreases attempts.len(),
{
    if attempts.len() > 0 {
        let (later, next) = exchange.after(attempts[0]);
        if next is Retry {
            law_attempts_are_bounded(later, attempts.drop_first());
        }
    }
}

/// A request that the API finds wrong is not sent again.
pub proof fn law_client_errors_are_final(
    exchange: Exchange,
    status: u16,
    retry_after: Option<Seq<char>>,
    detail: Seq<char>,
)
    requires
        400 <= status < 500,
        status != 429,
    ensures
        exchange.after_status(status, retry_after, detail).1 is Fail,
{
}

fn truncate(s: &str, max: usize) -> (out: String)
    ensures
        out@ == shortened(s@, max as nat),
{
    if len_of(s) <= max {
        return s.to_string();
    }
    let mut out = fitting_prefix(s, max).to_string();
    out.append("…");
    out
}

// ---------------------------------------------------------------------------
// Responses
// ---------------------------------------------------------------------------

/// A response of the Messages API.
#[derive(Debug)]
pub struct ApiResponse {
    pub stop_reason: Option<String>,
    pub content: Vec<Content>,
    pub usage: ApiUsage,
}

/// Tokens spent, as the Messages API counts them.
#[derive(Debug, Clone, Copy, PartialEq, Eq, Structural)]
pub struct ApiUsage {
    pub input_tokens: u64,
    pub output_tokens: u64,
}

impl LlmResponse {
    /// A response of the Messages API as the agent sees it. A response without a
    /// stop reason is the end of a turn.
    pub fn from_api(response: ApiResponse) -> (seen: LlmResponse)
        ensures
            seen@ == (LlmResponseView {
                stop_reason: match response.stop_reason {
                    Some(reason) => reason@,
                    None => "end_turn"@,
                },
                content: blocks(response.content@),
                usage: Usage {
                    input_tokens: response.usage.input_tokens,
                    output_tokens: response.usage.output_tokens,
                },
            }),
    {
        let stop_reason = match response.stop_reason {
            Some(reason) => reason,
            None => "end_turn".to_string(),
        };
        LlmResponse {
            stop_reason,
            content: response.content,
            usage: Usage {
                input_tokens: response.usage.input_tokens,
                output_tokens: response.usage.output_tokens,
            },
        }
    }
}

} // verus!
