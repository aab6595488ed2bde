//! Tools the host is willing to run on the agent's behalf.
//!
//! Each tool is a deliberate hole in the sandbox wall, so each one is narrow:
//! the agent names a tool and passes arguments, and the host decides whether
//! that particular call is permitted before anything happens.

use std::sync::Arc;

use vstd::prelude::*;
use vstd::slice::*;
use vstd::string::*;
use vstd::utf8::*;

use crate::abi::{
    denied_error, invalid_error, not_found_error, tool_views, upstream_error, CapError, CapErrorView,
    ToolSpec, ToolSpecView,
};
use crate::json::{
    json_array, json_object, json_string, json_tree, no_members, put, string_member, text_member,
    trees, JsonTree,
};
use crate::policy::{HttpToolConfig, KvToolConfig, Policy};
use crate::text::{
    byte_len, contains_text, debug_text, decimal, digits_value, is_digit, len_of, lossy, lossy_text, opt_text,
    push_decimal, quoted, same, texts,
};

verus! {

/// Every tool this host knows how to run. A policy may enable any subset.
pub const KNOWN_TOOLS: [&'static str; 4] = ["now", "http_get", "kv_get", "kv_put"];

/// The names of the tools this host knows how to run.
pub open spec fn known_tool(name: Seq<char>) -> bool {
    ||| name == "now"@
    ||| name == "http_get"@
    ||| name == "kv_get"@
    ||| name == "kv_put"@
}

pub fn is_known_tool(name: &str) -> (known: bool)
    ensures
        known == known_tool(name@),
{
    let mut i: usize = 0;
    while i < 4
        invariant
            i <= 4,
            forall|k: int| 0 <= k < i ==> (#[trigger] KNOWN_TOOLS@[k])@ != name@,
        decreases 4 - i,
    {
        if same(KNOWN_TOOLS[i], name) {
            return true;
        }
        i = i + 1;
    }
    assert(KNOWN_TOOLS@[0]@ != name@);
    assert(KNOWN_TOOLS@[1]@ != name@);
    assert(KNOWN_TOOLS@[2]@ != name@);
    assert(KNOWN_TOOLS@[3]@ != name@);
    false
}

// ---------------------------------------------------------------------------
// Descriptions
// ---------------------------------------------------------------------------

pub const NOW_DESCRIPTION: &'static str =
    "Get the current UTC time as an RFC 3339 timestamp. The sandbox has no clock of its own, so this is the only way to learn the time.";

pub const HTTP_GET_DESCRIPTION: &'static str =
    "Fetch a URL over HTTPS and return the status and body. Only hosts on the runtime's allowlist can be reached; anything else is denied. Responses are truncated past a size limit and redirects are reported rather than followed.";

pub const KV_GET_DESCRIPTION: &'static str =
    "Read a value previously saved with kv_put. Returns a placeholder if the key has never been set. The scratchpad lasts only for this run.";

pub const KV_PUT_DESCRIPTION: &'static str =
    "Save a string under a key so you can retrieve it later in this run. Use it to park intermediate findings instead of restating them each turn.";

/// The JSON Schema of an object with these properties.
pub open spec fn object_schema(
    properties: Map<Seq<char>, JsonTree>,
    required: Seq<JsonTree>,
) -> JsonTree {
    JsonTree::Object(
        map![
            "type"@ => JsonTree::Text("object"@),
            "properties"@ => JsonTree::Object(properties),
            "required"@ => JsonTree::List(required),
        ],
    )
}

/// The JSON Schema of a string.
pub open spec fn string_schema() -> JsonTree {
    JsonTree::Object(map!["type"@ => JsonTree::Text("string"@)])
}

/// The JSON Schema of a string, with a description.
pub open spec fn described_string_schema(description: Seq<char>) -> JsonTree {
    JsonTree::Object(
        map!["type"@ => JsonTree::Text("string"@), "description"@ => JsonTree::Text(description)],
    )
}

/// How the tool of a given name is described to the model.
pub open spec fn described(name: Seq<char>) -> Option<ToolSpecView> {
    if name == "now"@ {
        Some(
            ToolSpecView {
                name,
                description: NOW_DESCRIPTION@,
                input_schema: object_schema(Map::empty(), Seq::empty()),
            },
        )
    } else if name == "http_get"@ {
        Some(
            ToolSpecView {
                name,
                description: HTTP_GET_DESCRIPTION@,
                input_schema: object_schema(
                    map!["url"@ => described_string_schema("Absolute https:// URL to fetch."@)],
                    seq![JsonTree::Text("url"@)],
                ),
            },
        )
    } else if name == "kv_get"@ {
        Some(
            ToolSpecView {
                name,
                description: KV_GET_DESCRIPTION@,
                input_schema: object_schema(
                    map!["key"@ => string_schema()],
                    seq![JsonTree::Text("key"@)],
                ),
            },
        )
    } else if name == "kv_put"@ {
        Some(
            ToolSpecView {
                name,
                description: KV_PUT_DESCRIPTION@,
                input_schema: object_schema(
                    map!["key"@ => string_schema(), "value"@ => string_schema()],
                    seq![JsonTree::Text("key"@), JsonTree::Text("value"@)],
                ),
            },
        )
    } else {
        None
    }
}

/// The descriptions of those of `names` that are known tools, in order.
pub open spec fn described_all(names: Seq<Seq<char>>) -> Seq<ToolSpecView>
    decreases names.len(),
{
    if names.len() == 0 {
        Seq::empty()
    } else {
        match described(names.last()) {
            Some(tool) => described_all(names.drop_last()).push(tool),
            None => described_all(names.drop_last()),
        }
    }
}

/// A JSON object with one member.
fn object1(name: &str, value: serde_json::Value) -> (object: serde_json::Value)
    ensures
        json_tree(object) == JsonTree::Object(map![name@ => json_tree(value)]),
{
    let mut members = no_members();
    put(&mut members, name, value);
    json_object(members)
}

/// A JSON object with two members.
fn object2(
    name: &str,
    value: serde_json::Value,
    name2: &str,
    value2: serde_json::Value,
) -> (object: serde_json::Value)
    ensures
        json_tree(object) == JsonTree::Object(
            map![name@ => json_tree(value), name2@ => json_tree(value2)],
        ),
{
    let mut members = no_members();
    put(&mut members, name, value);
    put(&mut members, name2, value2);
    json_object(members)
}

/// The JSON Schema of an object.
fn schema(properties: serde_json::Value, required: Vec<serde_json::Value>) -> (object: serde_json::Value)
    requires
        json_tree(properties) is Object,
    ensures
        json_tree(object) == object_schema(json_tree(properties)->Object_0, trees(required@)),
{
    let mut members = no_members();
    put(&mut members, "type", json_string("object"));
    put(&mut members, "properties", properties);
    put(&mut members, "required", json_array(required));
    json_object(members)
}

/// How the tool of a given name is described to the model.
pub fn spec_for(name: &str) -> (tool: Option<ToolSpec>)
    ensures
        match tool {
            Some(tool) => described(name@) == Some(tool@),
            None => described(name@) is None,
        },
{
    let mut required: Vec<serde_json::Value> = Vec::new();
    let (description, input_schema) = if same(name, "now") {
        proof {
            assert(trees(required@) =~= Seq::empty());
        }
        (NOW_DESCRIPTION, schema(crate::json::empty_object(), required))
    } else if same(name, "http_get") {
        let url = object2(
            "type",
            json_string("string"),
            "description",
            json_string("Absolute https:// URL to fetch."),
        );
        required.push(json_string("url"));
        proof {
            assert(trees(required@) =~= seq![JsonTree::Text("url"@)]);
        }
        (HTTP_GET_DESCRIPTION, schema(object1("url", url), required))
    } else if same(name, "kv_get") {
        let key = object1("type", json_string("string"));
        required.push(json_string("key"));
        proof {
            assert(trees(required@) =~= seq![JsonTree::Text("key"@)]);
        }
        (KV_GET_DESCRIPTION, schema(object1("key", key), required))
    } else if same(name, "kv_put") {
        let key = object1("type", json_string("string"));
        let value = object1("type", json_string("string"));
        required.push(json_string("key"));
        required.push(json_string("value"));
        proof {
            assert(trees(required@) =~= seq![JsonTree::Text("key"@), JsonTree::Text("value"@)]);
        }
        (KV_PUT_DESCRIPTION, schema(object2("key", key, "value", value), required))
    } else {
        return None;
    };
    Some(
        ToolSpec {
            name: name.to_string(),
            description: description.to_string(),
            input_schema,
        },
    )
}

// ---------------------------------------------------------------------------
// Fetching
// ---------------------------------------------------------------------------

/// What the fetch tool looks at in a URL.
#[derive(Debug)]
pub struct ParsedUrl {
    /// The URL as it is sent.
    pub url: String,
    pub scheme: String,
    pub host: Option<String>,
}

/// The contents of a [`ParsedUrl`].
pub struct ParsedUrlView {
    pub url: Seq<char>,
    pub scheme: Seq<char>,
    pub host: Option<Seq<char>>,
}

impl View for ParsedUrl {
    type V = ParsedUrlView;

    open spec fn view(&self) -> ParsedUrlView {
        ParsedUrlView { url: self.url@, scheme: self.scheme@, host: opt_text(self.host) }
    }
}

/// What `url::Url::parse` makes of a text: the URL, its scheme and its host, or
/// the error in words.
pub uninterp spec fn url_of(text: Seq<char>) -> Result<ParsedUrlView, Seq<char>>;

/// `url::Url::parse`. Of a URL the serialization, the scheme and the host are
/// kept, and of an error its `Display` text.
#[verifier::external_body]
fn parse_url(text: &str) -> (parsed: Result<ParsedUrl, String>)
    ensures
        match parsed {
            Ok(url) => url_of(text@) == Ok::<ParsedUrlView, Seq<char>>(url@),
            Err(error) => url_of(text@) == Err::<ParsedUrlView, Seq<char>>(error@),
        },
{
    match url::Url::parse(text) {
        Ok(url) => Ok(
            ParsedUrl {
                url: url.as_str().to_string(),
                scheme: url.scheme().to_string(),
                host: url.host_str().map(|host| host.to_string()),
            },
        ),
        Err(error) => Err(error.to_string()),
    }
}

/// A request that the policy permits.
#[derive(Debug)]
pub struct HttpFetch {
    pub url: String,
    pub host: String,
    /// How many bytes of the response to show.
    pub limit: usize,
}

/// The contents of an [`HttpFetch`].
pub struct HttpFetchView {
    pub url: Seq<char>,
    pub host: Seq<char>,
    pub limit: usize,
}

impl View for HttpFetch {
    type V = HttpFetchView;

    open spec fn view(&self) -> HttpFetchView {
        HttpFetchView { url: self.url@, host: self.host@, limit: self.limit }
    }
}

/// Whether a URL may be fetched, and what to fetch.
pub open spec fn fetch_of(
    config: HttpToolConfig,
    parsed: Result<ParsedUrlView, Seq<char>>,
) -> Result<HttpFetchView, CapErrorView> {
    match parsed {
        Err(error) => Err(invalid_error("url is not valid: "@ + error)),
        Ok(url) => if url.scheme != "https"@ {
            Err(denied_error("only https URLs may be fetched"@))
        } else {
            match url.host {
                None => Err(invalid_error("url has no host"@)),
                Some(host) => if !config.covers(host) {
                    Err(
                        denied_error(
                            "host "@ + debug_text(host) + " is not in this host's allowlist"@,
                        ),
                    )
                } else {
                    Ok(HttpFetchView { url: url.url, host, limit: config.max_response_bytes })
                },
            }
        },
    }
}

/// Whether a URL may be fetched, and what to fetch.
pub fn authorize_fetch(config: &HttpToolConfig, parsed: Result<ParsedUrl, String>) -> (fetch: Result<
    HttpFetch,
    CapError,
>)
    ensures
        ({
            let shown = match parsed {
                Ok(url) => Ok::<ParsedUrlView, Seq<char>>(url@),
                Err(error) => Err::<ParsedUrlView, Seq<char>>(error@),
            };
            match fetch {
                Ok(fetch) => fetch_of(*config, shown) == Ok::<HttpFetchView, CapErrorView>(fetch@),
                Err(error) => fetch_of(*config, shown) == Err::<HttpFetchView, CapErrorView>(
                    error@,
                ),
            }
        }),
{
    let parsed = match parsed {
        Ok(parsed) => parsed,
        Err(error) => {
            let mut message = "url is not valid: ".to_string();
            message.append(error.as_str());
            return Err(CapError::invalid(message.as_str()));
        },
    };
    if !same(parsed.scheme.as_str(), "https") {
        return Err(CapError::denied("only https URLs may be fetched"));
    }
    let host = match parsed.host {
        Some(host) => host,
        None => {
            return Err(CapError::invalid("url has no host"));
        },
    };
    if !config.allows(host.as_str()) {
        let mut message = "host ".to_string();
        message.append(quoted(host.as_str()).as_str());
        message.append(" is not in this host's allowlist");
        return Err(CapError::denied(message.as_str()));
    }
    Ok(HttpFetch { url: parsed.url, host, limit: config.max_response_bytes })
}

/// What is left to do once the head of a response is there.
#[derive(Debug)]
pub enum FetchStep {
    /// Nothing: this is the tool's reply.
    Reply(String),
    /// Read at most this many bytes of the body.
    ReadBody(usize),
}

/// Whether an HTTP status is a redirection.
pub open spec fn is_redirection(status: u16) -> bool {
    300 <= status < 400
}

/// The reply to a redirection.
pub open spec fn redirect_reply(status: u16, location: Option<Seq<char>>) -> Seq<char> {
    "HTTP "@ + decimal(status as nat) + " redirect to "@ + (match location {
        Some(location) => location,
        None => "(none)"@,
    })
        + ". Redirects are not followed automatically; fetch that URL explicitly if you still want it."@
}

/// The reply to any other response: its status and its body. A body past the
/// limit is cut there, and marked; one that just fits is not.
pub open spec fn body_reply(status: u16, limit: usize, body: Seq<u8>) -> Seq<char> {
    if body.len() > limit {
        "HTTP "@ + decimal(status as nat) + " (truncated to "@ + decimal(limit as nat)
            + " bytes)"@ + "\n\n"@ + lossy_text(body.take(limit as int))
    } else {
        "HTTP "@ + decimal(status as nat) + "\n\n"@ + lossy_text(body)
    }
}

/// How much of a body is read: one byte more than is shown, to tell a body that
/// just fits from one that does not.
pub open spec fn read_limit(limit: usize) -> usize {
    if limit < usize::MAX {
        (limit + 1) as usize
    } else {
        limit
    }
}

impl HttpFetch {
    /// Decides what follows the head of a response. A redirection ends the call:
    /// its destination has not been checked against the allowlist.
    pub fn on_response(&self, status: u16, location: Option<String>) -> (step: FetchStep)
        ensures
            match step {
                FetchStep::Reply(text) => is_redirection(status) && text@ == redirect_reply(
                    status,
                    opt_text(location),
                ),
                FetchStep::ReadBody(most) => !is_redirection(status) && most == read_limit(
                    self.limit,
                ),
            },
    {
        if 300 <= status && status < 400 {
            let mut text = "HTTP ".to_string();
            push_decimal(&mut text, status as u128);
            text.append(" redirect to ");
            match location {
                Some(location) => text.append(location.as_str()),
                None => text.append("(none)"),
            }
            text.append(
                ". Redirects are not followed automatically; fetch that URL explicitly if you still want it.",
            );
            FetchStep::Reply(text)
        } else {
            FetchStep::ReadBody(
                if self.limit < usize::MAX {
                    self.limit + 1
                } else {
                    self.limit
                },
            )
        }
    }

    /// The tool's reply once the body is read.
    pub fn on_body(&self, status: u16, body: &[u8]) -> (reply: String)
        ensures
            reply@ == body_reply(status, self.limit, body@),
            valid_utf8(body@) && body@.len() <= self.limit ==> reply@ == "HTTP "@ + decimal(
                status as nat,
            ) + "\n\n"@ + decode_utf8(body@),
    {
        let mut text = "HTTP ".to_string();
        push_decimal(&mut text, status as u128);
        if body.len() > self.limit {
            text.append(" (truncated to ");
            push_decimal(&mut text, self.limit as u128);
            text.append(" bytes)");
            text.append("\n\n");
            let shown = slice_subrange(body, 0, self.limit);
            proof {
                assert(shown@ =~= body@.take(self.limit as int));
            }
            text.append(lossy(shown).as_str());
        } else {
            text.append("\n\n");
            text.append(lossy(body).as_str());
        }
        text
    }

    /// The tool's reply when the request could not be sent.
    pub fn on_send_error(&self, error: &str) -> (failure: CapError)
        ensures
            failure@ == upstream_error("GET "@ + self.host@ + " failed: "@ + error@),
    {
        let mut message = "GET ".to_string();
        message.append(self.host.as_str());
        message.append(" failed: ");
        message.append(error);
        CapError::upstream(message.as_str())
    }

    /// The tool's reply when the body could not be read.
    pub fn on_body_error(&self, error: &str) -> (failure: CapError)
        ensures
            failure@ == upstream_error("reading response body: "@ + error@),
    {
        let mut message = "reading response body: ".to_string();
        message.append(error);
        CapError::upstream(message.as_str())
    }
}

// ---------------------------------------------------------------------------
// The clock
// ---------------------------------------------------------------------------

/// Whether the two characters from `at` on are digits, and spell a number from
/// `low` to `high`.
pub open spec fn two_digits(s: Seq<char>, at: int, low: nat, high: nat) -> bool {
    &&& is_digit(s[at])
    &&& is_digit(s[at + 1])
    &&& low <= digits_value(s.subrange(at, at + 2)) <= high
}

/// Whether a text is a time in UTC in the format of RFC 3339, such as
/// `2026-01-31T23:59:59.25Z`: date and time of day, then, unless it is zero, the
/// fraction of the second, with up to nine digits.
pub open spec fn rfc3339_utc(s: Seq<char>) -> bool {
    let end = s.len() - 1;
    &&& s.len() >= 20
    &&& forall|i: int| 0 <= i < 4 ==> is_digit(#[trigger] s[i])
    &&& s[4] == '-'
    &&& two_digits(s, 5, 1, 12)
    &&& s[7] == '-'
    &&& two_digits(s, 8, 1, 31)
    &&& s[10] == 'T'
    &&& two_digits(s, 11, 0, 23)
    &&& s[13] == ':'
    &&& two_digits(s, 14, 0, 59)
    &&& s[16] == ':'
    &&& two_digits(s, 17, 0, 59)
    &&& end == 19 || {
        &&& s[19] == '.'
        &&& 21 <= end <= 29
        &&& forall|i: int| 20 <= i < end ==> is_digit(#[trigger] s[i])
    }
    &&& s[end] == 'Z'
}

/// What the clock tool replies: the time, or that there is none.
pub open spec fn clock_reply(s: Seq<char>) -> bool {
    rfc3339_utc(s) || s == "unavailable"@
}

/// The current time, as `time::OffsetDateTime::now_utc` reads it and
/// `OffsetDateTime::format` writes it in the format of RFC 3339; nothing where
/// the time cannot be written so. The offset of `now_utc` is UTC, so a time ends
/// with `Z`. Which time comes back depends on the clock, so no more is said of
/// it.
#[verifier::external_body]
fn clock_rfc3339() -> (stamp: Option<String>)
    ensures
        stamp is Some ==> rfc3339_utc(stamp->Some_0@),
{
    time::OffsetDateTime::now_utc().format(&time::format_description::well_known::Rfc3339).ok()
}

/// The clock's answer, or `unavailable`.
pub fn stamp_or_unavailable(stamp: Option<String>) -> (text: String)
    ensures
        text@ == (match stamp {
            Some(stamp) => stamp@,
            None => "unavailable"@,
        }),
{
    match stamp {
        Some(stamp) => stamp,
        None => "unavailable".to_string(),
    }
}

/// Whether a text is what the clock answered when asked, or, where it answered
/// nothing, `unavailable`.
pub closed spec fn clock_says(text: Seq<char>) -> bool {
    exists|stamp: Option<String>| #[trigger]
        call_ensures(clock_rfc3339, (), stamp) && text == (match stamp {
            Some(stamp) => stamp@,
            None => "unavailable"@,
        })
}

fn now_rfc3339() -> (text: String)
    ensures
        clock_says(text@),
        clock_reply(text@),
{
    let stamp = clock_rfc3339();
    assert(call_ensures(clock_rfc3339, (), stamp));
    stamp_or_unavailable(stamp)
}

// ---------------------------------------------------------------------------
// The scratchpad
// ---------------------------------------------------------------------------

/// The map that results from inserting the entries in order.
pub open spec fn scratchpad(entries: Seq<(String, String)>) -> Map<Seq<char>, Seq<char>>
    decreases entries.len(),
{
    if entries.len() == 0 {
        Map::empty()
    } else {
        scratchpad(entries.drop_last()).insert(entries.last().0@, entries.last().1@)
    }
}

/// No key occurs twice.
pub open spec fn distinct_keys(entries: Seq<(String, String)>) -> bool {
    forall|i: int, j: int|
        0 <= i < j < entries.len() ==> (#[trigger] entries[i]).0@ != (#[trigger] entries[j]).0@
}

/// With distinct keys the map holds each entry, nothing else, and counts them.
proof fn lemma_scratchpad(entries: Seq<(String, String)>)
    requires
        distinct_keys(entries),
    ensures
        forall|i: int|
            0 <= i < entries.len() ==> scratchpad(entries).contains_key(
                (#[trigger] entries[i]).0@,
            ) && scratchpad(entries)[entries[i].0@] == entries[i].1@,
        forall|key: Seq<char>| #[trigger]
            scratchpad(entries).contains_key(key) ==> exists|i: int|
                0 <= i < entries.len() && (#[trigger] entries[i]).0@ == key,
        scratchpad(entries).dom().finite(),
        scratchpad(entries).len() == entries.len(),
    decreases entries.len(),
{
    if entries.len() > 0 {
        let rest = entries.drop_last();
        let n = entries.len() - 1;
        assert forall|i: int, j: int| 0 <= i < j < rest.len() implies (#[trigger] rest[i]).0@ != (
        #[trigger] rest[j]).0@ by {
            assert(rest[i] == entries[i] && rest[j] == entries[j]);
        }
        lemma_scratchpad(rest);
        let key = entries[n].0@;
        if scratchpad(rest).contains_key(key) {
            let i = choose|i: int| 0 <= i < rest.len() && (#[trigger] rest[i]).0@ == key;
            assert(rest[i] == entries[i]);
            assert(entries[i].0@ != entries[n].0@);
        }
        assert forall|i: int| 0 <= i < entries.len() implies scratchpad(entries).contains_key(
            (#[trigger] entries[i]).0@,
        ) && scratchpad(entries)[entries[i].0@] == entries[i].1@ by {
            if i < n {
                assert(rest[i] == entries[i]);
                assert(entries[i].0@ != entries[n].0@);
            }
        }
        assert forall|k: Seq<char>| #[trigger] scratchpad(entries).contains_key(k) implies exists|
            i: int,
        |
            0 <= i < entries.len() && (#[trigger] entries[i]).0@ == k by {
            if k == key {
                assert(entries[n].0@ == k);
            } else {
                assert(scratchpad(rest).contains_key(k));
                let i = choose|i: int| 0 <= i < rest.len() && (#[trigger] rest[i]).0@ == k;
                assert(entries[i].0@ == k);
            }
        }
    }
}

/// Replacing the value of an entry replaces it in the map.
proof fn lemma_scratchpad_update(entries: Seq<(String, String)>, at: int, entry: (String, String))
    requires
        distinct_keys(entries),
        0 <= at < entries.len(),
        entry.0@ == entries[at].0@,
    ensures
        distinct_keys(entries.update(at, entry)),
        scratchpad(entries.update(at, entry)) == scratchpad(entries).insert(entry.0@, entry.1@),
{
    let changed = entries.update(at, entry);
    assert forall|i: int, j: int| 0 <= i < j < changed.len() implies (#[trigger] changed[i]).0@ != (
    #[trigger] changed[j]).0@ by {
        assert(entries[i].0@ != entries[j].0@);
    }
    lemma_scratchpad(entries);
    lemma_scratchpad(changed);
    let left = scratchpad(changed);
    let right = scratchpad(entries).insert(entry.0@, entry.1@);
    assert forall|k: Seq<char>| #[trigger] left.contains_key(k) <==> right.contains_key(k) by {
        if left.contains_key(k) {
            let i = choose|i: int| 0 <= i < changed.len() && (#[trigger] changed[i]).0@ == k;
            assert(entries[i].0@ == k);
        }
        if right.contains_key(k) {
            if k == entry.0@ {
                assert(changed[at].0@ == k);
            } else {
                let i = choose|i: int| 0 <= i < entries.len() && (#[trigger] entries[i]).0@ == k;
                assert(changed[i].0@ == k);
            }
        }
    }
    assert forall|k: Seq<char>| #[trigger] left.contains_key(k) implies left[k] == right[k] by {
        let i = choose|i: int| 0 <= i < changed.len() && (#[trigger] changed[i]).0@ == k;
        if i == at {
        } else {
            assert(entries[i].0@ == k);
            assert(entries[i] == changed[i]);
            if i < at {
                assert(changed[i].0@ != changed[at].0@);
            } else {
                assert(changed[at].0@ != changed[i].0@);
            }
        }
    }
    assert(left =~= right);
}

/// What a lookup replies.
pub open spec fn recalled(kv: Map<Seq<char>, Seq<char>>, key: Seq<char>) -> Seq<char> {
    if kv.contains_key(key) {
        kv[key]
    } else {
        "(no value stored for "@ + debug_text(key) + ")"@
    }
}

/// Why an entry is refused.
pub open spec fn refused(
    limits: KvToolConfig,
    kv: Map<Seq<char>, Seq<char>>,
    key: Seq<char>,
    value: Seq<char>,
) -> Option<CapErrorView> {
    if byte_len(value) > limits.max_value_bytes {
        Some(
            denied_error(
                "value is "@ + decimal(byte_len(value)) + " bytes, over the "@ + decimal(
                    limits.max_value_bytes as nat,
                ) + " byte limit"@,
            ),
        )
    } else if !kv.contains_key(key) && kv.len() >= limits.max_keys {
        Some(
            denied_error(
                "the scratchpad already holds its maximum of "@ + decimal(limits.max_keys as nat)
                    + " keys"@,
            ),
        )
    } else {
        None
    }
}

// ---------------------------------------------------------------------------
// The tool box
// ---------------------------------------------------------------------------

/// What a permitted tool call comes to.
#[derive(Debug)]
pub enum ToolReply {
    /// The tool's reply.
    Text(String),
    /// A request to make; its outcome is the reply.
    Fetch(HttpFetch),
}

/// The contents of a [`ToolReply`].
pub enum ToolReplyView {
    Text(Seq<char>),
    Fetch(HttpFetchView),
}

impl View for ToolReply {
    type V = ToolReplyView;

    open spec fn view(&self) -> ToolReplyView {
        match self {
            ToolReply::Text(text) => ToolReplyView::Text(text@),
            ToolReply::Fetch(fetch) => ToolReplyView::Fetch(fetch@),
        }
    }
}

/// The contents of the outcome of a tool call.
pub open spec fn reply_view(reply: Result<ToolReply, CapError>) -> Result<
    ToolReplyView,
    CapErrorView,
> {
    match reply {
        Ok(reply) => Ok(reply@),
        Err(error) => Err(error@),
    }
}

/// The error for an argument that is missing or is no string.
pub open spec fn missing_argument(field: Seq<char>) -> CapErrorView {
    invalid_error("missing required string argument "@ + debug_text(field))
}

/// Whether a policy enables a tool.
pub open spec fn tool_enabled(policy: Policy, name: Seq<char>) -> bool {
    texts(policy.tools.enabled@).contains(name)
}

/// What the fetch tool replies.
pub open spec fn http_get_reply(policy: Policy, input: JsonTree) -> Result<
    ToolReplyView,
    CapErrorView,
> {
    match text_member(input, "url"@) {
        None => Err(missing_argument("url"@)),
        Some(url) => match fetch_of(policy.tools.http, url_of(url)) {
            Ok(fetch) => Ok(ToolReplyView::Fetch(fetch)),
            Err(error) => Err(error),
        },
    }
}

/// What the lookup tool replies.
pub open spec fn kv_get_reply(kv: Map<Seq<char>, Seq<char>>, input: JsonTree) -> Result<
    ToolReplyView,
    CapErrorView,
> {
    match text_member(input, "key"@) {
        None => Err(missing_argument("key"@)),
        Some(key) => Ok(ToolReplyView::Text(recalled(kv, key))),
    }
}

/// What the storing tool replies.
pub open spec fn kv_put_reply(
    limits: KvToolConfig,
    kv: Map<Seq<char>, Seq<char>>,
    input: JsonTree,
) -> Result<ToolReplyView, CapErrorView> {
    match (text_member(input, "key"@), text_member(input, "value"@)) {
        (None, _) => Err(missing_argument("key"@)),
        (Some(_), None) => Err(missing_argument("value"@)),
        (Some(key), Some(value)) => match refused(limits, kv, key, value) {
            Some(error) => Err(error),
            None => Ok(ToolReplyView::Text("stored "@ + debug_text(key))),
        },
    }
}

/// The scratchpad after the storing tool.
pub open spec fn kv_put_after(
    limits: KvToolConfig,
    kv: Map<Seq<char>, Seq<char>>,
    input: JsonTree,
) -> Map<Seq<char>, Seq<char>> {
    match (text_member(input, "key"@), text_member(input, "value"@)) {
        (Some(key), Some(value)) if refused(limits, kv, key, value) is None => kv.insert(key, value),
        _ => kv,
    }
}

/// What a tool call replies, for every tool but the clock.
pub open spec fn invoked(
    policy: Policy,
    kv: Map<Seq<char>, Seq<char>>,
    name: Seq<char>,
    input: JsonTree,
) -> Result<ToolReplyView, CapErrorView> {
    if !tool_enabled(policy, name) {
        Err(
            denied_error(
                "tool "@ + debug_text(name) + " is not enabled by this host's policy"@,
            ),
        )
    } else if name == "http_get"@ {
        http_get_reply(policy, input)
    } else if name == "kv_get"@ {
        kv_get_reply(kv, input)
    } else if name == "kv_put"@ {
        kv_put_reply(policy.tools.kv, kv, input)
    } else {
        Err(not_found_error("no tool named "@ + debug_text(name)))
    }
}

/// The scratchpad after a tool call.
pub open spec fn kv_after(
    policy: Policy,
    kv: Map<Seq<char>, Seq<char>>,
    name: Seq<char>,
    input: JsonTree,
) -> Map<Seq<char>, Seq<char>> {
    if tool_enabled(policy, name) && name == "kv_put"@ {
        kv_put_after(policy.tools.kv, kv, input)
    } else {
        kv
    }
}

/// Per-run tool state. A fresh box is built for every agent run, so the key/value
/// scratchpad never leaks between runs.
pub struct ToolBox {
    policy: Arc<Policy>,
    kv: Vec<(String, String)>,
}

impl ToolBox {
    /// The policy that the box goes by.
    pub closed spec fn policy(self) -> Policy {
        *self.policy
    }

    /// What the scratchpad holds.
    pub closed spec fn kv(self) -> Map<Seq<char>, Seq<char>> {
        scratchpad(self.kv@)
    }

    /// The box keeps no key twice, and holds no more keys and no longer values
    /// than the policy allows.
    pub closed spec fn wf(self) -> bool {
        &&& distinct_keys(self.kv@)
        &&& self.kv@.len() <= self.policy.tools.kv.max_keys
        &&& forall|i: int|
            0 <= i < self.kv@.len() ==> byte_len((#[trigger] self.kv@[i]).1@)
                <= self.policy.tools.kv.max_value_bytes
    }

    /// The caps of the scratchpad hold in every state of a box.
    pub proof fn law_caps_hold(self)
        requires
            self.wf(),
        ensures
            self.kv().dom().finite(),
            self.kv().len() <= self.policy().tools.kv.max_keys,
            forall|key: Seq<char>| #[trigger]
                self.kv().contains_key(key) ==> byte_len(self.kv()[key])
                    <= self.policy().tools.kv.max_value_bytes,
    {
        lemma_scratchpad(self.kv@);
        assert forall|key: Seq<char>| #[trigger] self.kv().contains_key(key) implies byte_len(
            self.kv()[key],
        ) <= self.policy().tools.kv.max_value_bytes by {
            let i = choose|i: int| 0 <= i < self.kv@.len() && (#[trigger] self.kv@[i]).0@ == key;
            assert(self.kv()[key] == self.kv@[i].1@);
        }
    }

    /// An empty box.
    pub fn new(policy: Arc<Policy>) -> (tools: ToolBox)
        ensures
            tools.wf(),
            tools.policy() == *policy,
            tools.kv() == Map::<Seq<char>, Seq<char>>::empty(),
    {
        ToolBox { policy, kv: Vec::new() }
    }

    /// The policy that the box goes by.
    pub fn policy_ref(&self) -> (policy: &Policy)
        ensures
            *policy == self.policy(),
    {
        &self.policy
    }

    /// The tool surface the agent is shown. A disabled tool is not described,
    /// not listed, and does not exist as far as the model is concerned.
    pub fn specs(&self) -> (tools: Vec<ToolSpec>)
        ensures
            tool_views(tools@) == described_all(texts(self.policy().tools.enabled@)),
    {
        let names = &self.policy.tools.enabled;
        let mut out: Vec<ToolSpec> = Vec::new();
        let mut i: usize = 0;
        proof {
            assert(tool_views(out@) =~= described_all(texts(names@).take(0)));
        }
        while i < names.len()
            invariant
                i <= names.len(),
                names@ == self.policy().tools.enabled@,
                tool_views(out@) == described_all(texts(names@).take(i as int)),
            decreases names.len() - i,
        {
            let ghost before = out@;
            proof {
                assert(texts(names@).take(i + 1).drop_last() =~= texts(names@).take(i as int));
            }
            if let Some(tool) = spec_for(names[i].as_str()) {
                out.push(tool);
                proof {
                    assert(tool_views(out@) =~= tool_views(before).push(tool@));
                }
            }
            i = i + 1;
        }
        proof {
            assert(texts(names@).take(names@.len() as int) =~= texts(names@));
        }
        out
    }

    /// Run a tool, as far as the host can without leaving the process: what is
    /// left of a fetch is handed back as a request.
    pub fn invoke(&mut self, name: &str, input: &serde_json::Value) -> (reply: Result<
        ToolReply,
        CapError,
    >)
        requires
            old(self).wf(),
        ensures
            final(self).wf(),
            final(self).policy() == old(self).policy(),
            final(self).kv() == kv_after(
                old(self).policy(),
                old(self).kv(),
                name@,
                json_tree(*input),
            ),
            if name@ == "now"@ && tool_enabled(old(self).policy(), name@) {
                &&& reply matches Ok(ToolReply::Text(text))
                &&& clock_says(text@)
                &&& clock_reply(text@)
            } else {
                reply_view(reply) == invoked(
                    old(self).policy(),
                    old(self).kv(),
                    name@,
                    json_tree(*input),
                )
            },
    {
        proof {
            reveal_strlit("now");
            reveal_strlit("http_get");
            reveal_strlit("kv_get");
            reveal_strlit("kv_put");
            assert("now"@.len() != "kv_put"@.len());
            assert("http_get"@.len() != "kv_put"@.len());
            assert("kv_get"@[3] != "kv_put"@[3]);
        }
        if !contains_text(&self.policy.tools.enabled, name) {
            let mut message = "tool ".to_string();
            message.append(quoted(name).as_str());
            message.append(" is not enabled by this host's policy");
            return Err(CapError::denied(message.as_str()));
        }
        if same(name, "now") {
            Ok(ToolReply::Text(now_rfc3339()))
        } else if same(name, "http_get") {
            match self.http_get(input) {
                Ok(fetch) => Ok(ToolReply::Fetch(fetch)),
                Err(error) => Err(error),
            }
        } else if same(name, "kv_get") {
            match self.kv_get(input) {
                Ok(text) => Ok(ToolReply::Text(text)),
                Err(error) => Err(error),
            }
        } else if same(name, "kv_put") {
            match self.kv_put(input) {
                Ok(text) => Ok(ToolReply::Text(text)),
                Err(error) => Err(error),
            }
        } else {
            let mut message = "no tool named ".to_string();
            message.append(quoted(name).as_str());
            Err(CapError::not_found(message.as_str()))
        }
    }

    fn http_get(&self, input: &serde_json::Value) -> (fetch: Result<HttpFetch, CapError>)
        ensures
            http_get_reply(self.policy(), json_tree(*input)) == (match fetch {
                Ok(fetch) => Ok::<ToolReplyView, CapErrorView>(ToolReplyView::Fetch(fetch@)),
                Err(error) => Err::<ToolReplyView, CapErrorView>(error@),
            }),
    {
        match string_arg(input, "url") {
            Ok(url) => authorize_fetch(&self.policy.tools.http, parse_url(url.as_str())),
            Err(error) => Err(error),
        }
    }

    fn kv_get(&self, input: &serde_json::Value) -> (text: Result<String, CapError>)
        requires
            self.wf(),
        ensures
            kv_get_reply(self.kv(), json_tree(*input)) == (match text {
                Ok(text) => Ok::<ToolReplyView, CapErrorView>(ToolReplyView::Text(text@)),
                Err(error) => Err::<ToolReplyView, CapErrorView>(error@),
            }),
    {
        match string_arg(input, "key") {
            Ok(key) => Ok(self.recall(key.as_str())),
            Err(error) => Err(error),
        }
    }

    fn kv_put(&mut self, input: &serde_json::Value) -> (text: Result<String, CapError>)
        requires
            old(self).wf(),
        ensures
            final(self).wf(),
            final(self).policy() == old(self).policy(),
            final(self).kv() == kv_put_after(
                old(self).policy().tools.kv,
                old(self).kv(),
                json_tree(*input),
            ),
            kv_put_reply(old(self).policy().tools.kv, old(self).kv(), json_tree(*input)) == (
            match text {
                Ok(text) => Ok::<ToolReplyView, CapErrorView>(ToolReplyView::Text(text@)),
                Err(error) => Err::<ToolReplyView, CapErrorView>(error@),
            }),
    {
        let key = match string_arg(input, "key") {
            Ok(key) => key,
            Err(error) => {
                return Err(error);
            },
        };
        let value = match string_arg(input, "value") {
            Ok(value) => value,
            Err(error) => {
                return Err(error);
            },
        };
        self.store(key, value)
    }

    /// The position of a key in the scratchpad, or its length.
    fn position(&self, key: &str) -> (at: usize)
        requires
            self.wf(),
        ensures
            at <= self.kv@.len(),
            at < self.kv@.len() ==> self.kv@[at as int].0@ == key@,
            at == self.kv@.len() <==> !self.kv().contains_key(key@),
    {
        proof {
            lemma_scratchpad(self.kv@);
        }
        let mut i: usize = 0;
        while i < self.kv.len()
            invariant
                i <= self.kv@.len(),
                forall|k: int| 0 <= k < i ==> (#[trigger] self.kv@[k]).0@ != key@,
                forall|k: int|
                    0 <= k < self.kv@.len() ==> self.kv().contains_key((#[trigger] self.kv@[k]).0@),
            decreases self.kv.len() - i,
        {
            if same(self.kv[i].0.as_str(), key) {
                assert(self.kv().contains_key(self.kv@[i as int].0@));
                return i;
            }
            i = i + 1;
        }
        i
    }

    /// The value stored under a key, or a placeholder.
    pub fn recall(&self, key: &str) -> (text: String)
        requires
            self.wf(),
        ensures
            text@ == recalled(self.kv(), key@),
    {
        proof {
            lemma_scratchpad(self.kv@);
        }
        let at: usize = self.position(key);
        if at < self.kv.len() {
            self.kv[at].1.clone()
        } else {
            let mut text = "(no value stored for ".to_string();
            text.append(quoted(key).as_str());
            text.append(")");
            text
        }
    }

    /// Stores a value under a key, within the caps of the policy.
    pub fn store(&mut self, key: String, value: String) -> (text: Result<String, CapError>)
        requires
            old(self).wf(),
        ensures
            final(self).wf(),
            final(self).policy() == old(self).policy(),
            match refused(old(self).policy().tools.kv, old(self).kv(), key@, value@) {
                Some(error) => {
                    &&& text is Err
                    &&& text->Err_0@ == error
                    &&& final(self).kv() == old(self).kv()
                },
                None => {
                    &&& text is Ok
                    &&& text->Ok_0@ == "stored "@ + debug_text(key@)
                    &&& final(self).kv() == old(self).kv().insert(key@, value@)
                },
            },
    {
        let max_value_bytes: usize = self.policy.tools.kv.max_value_bytes;
        let max_keys: usize = self.policy.tools.kv.max_keys;
        proof {
            lemma_scratchpad(self.kv@);
        }
        let len: usize = len_of(value.as_str());
        if len > max_value_bytes {
            let mut message = "value is ".to_string();
            push_decimal(&mut message, len as u128);
            message.append(" bytes, over the ");
            push_decimal(&mut message, max_value_bytes as u128);
            message.append(" byte limit");
            return Err(CapError::denied(message.as_str()));
        }
        let at: usize = self.position(key.as_str());
        if at == self.kv.len() && self.kv.len() >= max_keys {
            let mut message = "the scratchpad already holds its maximum of ".to_string();
            push_decimal(&mut message, max_keys as u128);
            message.append(" keys");
            return Err(CapError::denied(message.as_str()));
        }
        let mut text = "stored ".to_string();
        text.append(quoted(key.as_str()).as_str());
        let ghost before = self.kv@;
        if at < self.kv.len() {
            proof {
                lemma_scratchpad_update(before, at as int, (key, value));
            }
            self.kv[at] = (key, value);
            assert(self.kv@ =~= before.update(at as int, (key, value)));
        } else {
            self.kv.push((key, value));
            proof {
                assert(self.kv@.drop_last() =~= before);
                assert forall|i: int, j: int| 0 <= i < j < self.kv@.len() implies (
                #[trigger] self.kv@[i]).0@ != (#[trigger] self.kv@[j]).0@ by {
                    if j == before.len() {
                        assert(scratchpad(before).contains_key(before[i].0@));
                    } else {
                        assert(before[i].0@ != before[j].0@);
                    }
                }
            }
        }
        Ok(text)
    }
}

/// A required string argument of a tool call.
fn string_arg(input: &serde_json::Value, field: &str) -> (text: Result<String, CapError>)
    ensures
        match text_member(json_tree(*input), field@) {
            Some(found) => text is Ok && text->Ok_0@ == found,
            None => text is Err && text->Err_0@ == missing_argument(field@),
        },
{
    match string_member(input, field) {
        Some(text) => Ok(text),
        None => {
            let mut message = "missing required string argument ".to_string();
            message.append(quoted(field).as_str());
            Err(CapError::invalid(message.as_str()))
        },
    }
}

} // verus!
