//! What a tool call does and replies, in terms of the policy, the scratchpad and
//! the call's arguments.

use vstd::prelude::*;
use vstd::utf8::*;

use crate::abi::CapErrorView;
use crate::json::{text_member, JsonTree};
use crate::policy::Policy;
use crate::text::{byte_len, debug_text, decimal, lossy_text, texts};
use crate::text_laws::{lemma_places_push, places};
use crate::tool_laws::lemma_names_differ;
use crate::tools::{
    body_reply, described, described_all, invoked, is_redirection, kv_after, read_limit, redirect_reply,
    tool_enabled, url_of, HttpFetch, HttpFetchView, ToolReplyView, HTTP_GET_DESCRIPTION, KV_GET_DESCRIPTION,
    KV_PUT_DESCRIPTION, NOW_DESCRIPTION,
};

verus! {

/// A tool is enabled exactly if the policy lists its name.
pub proof fn law_tools_are_enabled_by_name(policy: Policy, name: Seq<char>)
    ensures
        tool_enabled(policy, name) <==> exists|i: int|
            0 <= i < policy.tools.enabled@.len() && (#[trigger] policy.tools.enabled@[i])@ == name,
{
    let names = texts(policy.tools.enabled@);
    if tool_enabled(policy, name) {
        let i = choose|i: int| 0 <= i < names.len() && names[i] == name;
        assert(policy.tools.enabled@[i]@ == name);
    }
    if exists|i: int|
        0 <= i < policy.tools.enabled@.len() && (#[trigger] policy.tools.enabled@[i])@ == name {
        let i = choose|i: int|
            0 <= i < policy.tools.enabled@.len() && (#[trigger] policy.tools.enabled@[i])@ == name;
        assert(names[i] == name);
    }
}

// ---------------------------------------------------------------------------
// The scratchpad
// ---------------------------------------------------------------------------

/// Storing a value and looking its key up gives back that very value, whole,
/// whatever it is; and looking up any other key gives what it gave before.
pub proof fn law_what_is_stored_comes_back(
    policy: Policy,
    kv: Map<Seq<char>, Seq<char>>,
    stored: JsonTree,
    asked: JsonTree,
)
    requires
        tool_enabled(policy, "kv_put"@),
        tool_enabled(policy, "kv_get"@),
        invoked(policy, kv, "kv_put"@, stored) is Ok,
        text_member(asked, "key"@) is Some,
    ensures
        text_member(stored, "value"@) is Some,
        text_member(asked, "key"@) == text_member(stored, "key"@) ==> invoked(
            policy,
            kv_after(policy, kv, "kv_put"@, stored),
            "kv_get"@,
            asked,
        ) == Ok::<ToolReplyView, CapErrorView>(
            ToolReplyView::Text(text_member(stored, "value"@)->Some_0),
        ),
        text_member(asked, "key"@) != text_member(stored, "key"@) ==> invoked(
            policy,
            kv_after(policy, kv, "kv_put"@, stored),
            "kv_get"@,
            asked,
        ) == invoked(policy, kv, "kv_get"@, asked),
{
    lemma_names_differ();
}

/// A later value under a key takes the place of an earlier one.
pub proof fn law_the_last_value_stays(
    policy: Policy,
    kv: Map<Seq<char>, Seq<char>>,
    first: JsonTree,
    second: JsonTree,
)
    requires
        tool_enabled(policy, "kv_put"@),
        invoked(policy, kv, "kv_put"@, first) is Ok,
        text_member(first, "key"@) == text_member(second, "key"@),
        text_member(second, "value"@) is Some,
        byte_len(text_member(second, "value"@)->Some_0) <= policy.tools.kv.max_value_bytes,
        kv.dom().finite(),
    ensures
        ({
            let later = kv_after(policy, kv, "kv_put"@, first);
            &&& invoked(policy, later, "kv_put"@, second) is Ok
            &&& kv_after(policy, later, "kv_put"@, second) == kv.insert(
                text_member(second, "key"@)->Some_0,
                text_member(second, "value"@)->Some_0,
            )
        }),
{
    lemma_names_differ();
    let key = text_member(first, "key"@)->Some_0;
    let later = kv_after(policy, kv, "kv_put"@, first);
    assert(later.contains_key(key));
    assert(kv_after(policy, later, "kv_put"@, second) =~= kv.insert(
        key,
        text_member(second, "value"@)->Some_0,
    ));
}

/// What a lookup replies: the value under the key, whole, or a placeholder that
/// names the key; and a complaint if no key is given. It changes nothing.
pub proof fn law_a_lookup_replies_what_is_there(
    policy: Policy,
    kv: Map<Seq<char>, Seq<char>>,
    input: JsonTree,
)
    requires
        tool_enabled(policy, "kv_get"@),
    ensures
        match text_member(input, "key"@) {
            None => invoked(policy, kv, "kv_get"@, input) == Err::<ToolReplyView, CapErrorView>(
                CapErrorView {
                    kind: "invalid"@,
                    message: "missing required string argument "@ + debug_text("key"@),
                },
            ),
            Some(key) => invoked(policy, kv, "kv_get"@, input) == Ok::<ToolReplyView, CapErrorView>(
                ToolReplyView::Text(
                    if kv.contains_key(key) {
                        kv[key]
                    } else {
                        "(no value stored for "@ + debug_text(key) + ")"@
                    },
                ),
            ),
        },
        kv_after(policy, kv, "kv_get"@, input) == kv,
{
    lemma_names_differ();
}

/// What storing does and replies. The value is stored under the key exactly if
/// it is no longer than the policy allows and there is room for its key, which
/// there is if the key is there already.
pub proof fn law_a_value_is_stored_within_the_caps(
    policy: Policy,
    kv: Map<Seq<char>, Seq<char>>,
    input: JsonTree,
)
    requires
        tool_enabled(policy, "kv_put"@),
        text_member(input, "key"@) is Some,
        text_member(input, "value"@) is Some,
    ensures
        ({
            let key = text_member(input, "key"@)->Some_0;
            let value = text_member(input, "value"@)->Some_0;
            let reply = invoked(policy, kv, "kv_put"@, input);
            let after = kv_after(policy, kv, "kv_put"@, input);
            if byte_len(value) > policy.tools.kv.max_value_bytes {
                &&& after == kv
                &&& reply == Err::<ToolReplyView, CapErrorView>(
                    CapErrorView {
                        kind: "denied"@,
                        message: "value is "@ + decimal(byte_len(value)) + " bytes, over the "@
                            + decimal(policy.tools.kv.max_value_bytes as nat) + " byte limit"@,
                    },
                )
            } else if !kv.contains_key(key) && kv.len() >= policy.tools.kv.max_keys {
                &&& after == kv
                &&& reply == Err::<ToolReplyView, CapErrorView>(
                    CapErrorView {
                        kind: "denied"@,
                        message: "the scratchpad already holds its maximum of "@ + decimal(
                            policy.tools.kv.max_keys as nat,
                        ) + " keys"@,
                    },
                )
            } else {
                &&& after == kv.insert(key, value)
                &&& reply == Ok::<ToolReplyView, CapErrorView>(
                    ToolReplyView::Text("stored "@ + debug_text(key)),
                )
            }
        }),
{
    lemma_names_differ();
}

/// Storing without a key or without a value changes nothing, and is answered with
/// the name of what is missing.
pub proof fn law_nothing_is_stored_without_key_and_value(
    policy: Policy,
    kv: Map<Seq<char>, Seq<char>>,
    input: JsonTree,
)
    requires
        tool_enabled(policy, "kv_put"@),
        text_member(input, "key"@) is None || text_member(input, "value"@) is None,
    ensures
        kv_after(policy, kv, "kv_put"@, input) == kv,
        invoked(policy, kv, "kv_put"@, input) == Err::<ToolReplyView, CapErrorView>(
            CapErrorView {
                kind: "invalid"@,
                message: "missing required string argument "@ + debug_text(
                    if text_member(input, "key"@) is None {
                        "key"@
                    } else {
                        "value"@
                    },
                ),
            },
        ),
{
    lemma_names_differ();
}

/// No call but one that stores changes the scratchpad.
pub proof fn law_only_storing_changes_the_scratchpad(
    policy: Policy,
    kv: Map<Seq<char>, Seq<char>>,
    name: Seq<char>,
    input: JsonTree,
)
    requires
        name != "kv_put"@ || !tool_enabled(policy, name),
    ensures
        kv_after(policy, kv, name, input) == kv,
{
}

// ---------------------------------------------------------------------------
// Fetching
// ---------------------------------------------------------------------------

/// A URL is fetched whenever the tool is enabled, the URL is one over https, and
/// its host is on the allowlist; what is fetched is that URL.
pub proof fn law_allowed_urls_are_fetched(
    policy: Policy,
    kv: Map<Seq<char>, Seq<char>>,
    input: JsonTree,
    text: Seq<char>,
    host: Seq<char>,
)
    requires
        tool_enabled(policy, "http_get"@),
        text_member(input, "url"@) == Some(text),
        url_of(text) is Ok,
        url_of(text)->Ok_0.scheme == "https"@,
        url_of(text)->Ok_0.host == Some(host),
        policy.tools.http.covers(host),
    ensures
        invoked(policy, kv, "http_get"@, input) == Ok::<ToolReplyView, CapErrorView>(
            ToolReplyView::Fetch(
                HttpFetchView {
                    url: url_of(text)->Ok_0.url,
                    host,
                    limit: policy.tools.http.max_response_bytes,
                },
            ),
        ),
{
    lemma_names_differ();
}

/// Any other URL is refused, with the reason: it is missing, it is no URL, it is
/// not one over https, it has no host, or its host is not on the allowlist.
pub proof fn law_other_urls_are_refused(
    policy: Policy,
    kv: Map<Seq<char>, Seq<char>>,
    input: JsonTree,
)
    requires
        tool_enabled(policy, "http_get"@),
    ensures
        ({
            let reply = invoked(policy, kv, "http_get"@, input);
            match text_member(input, "url"@) {
                None => reply == Err::<ToolReplyView, CapErrorView>(
                    CapErrorView {
                        kind: "invalid"@,
                        message: "missing required string argument "@ + debug_text("url"@),
                    },
                ),
                Some(text) => match url_of(text) {
                    Err(error) => reply == Err::<ToolReplyView, CapErrorView>(
                        CapErrorView {
                            kind: "invalid"@,
                            message: "url is not valid: "@ + error,
                        },
                    ),
                    Ok(url) => {
                        &&& url.scheme != "https"@ ==> reply == Err::<ToolReplyView, CapErrorView>(
                            CapErrorView {
                                kind: "denied"@,
                                message: "only https URLs may be fetched"@,
                            },
                        )
                        &&& url.scheme == "https"@ && url.host is None ==> reply == Err::<
                            ToolReplyView,
                            CapErrorView,
                        >(CapErrorView { kind: "invalid"@, message: "url has no host"@ })
                        &&& url.scheme == "https"@ && url.host is Some
                            && !policy.tools.http.covers(url.host->Some_0) ==> reply == Err::<
                            ToolReplyView,
                            CapErrorView,
                        >(
                            CapErrorView {
                                kind: "denied"@,
                                message: "host "@ + debug_text(url.host->Some_0)
                                    + " is not in this host's allowlist"@,
                            },
                        )
                    },
                },
            }
        }),
{
    lemma_names_differ();
}

/// A response is a redirection exactly if its status is from 300 to 399; the
/// reply to one says where it leads, whole, and that it was not followed.
pub proof fn law_redirections_are_reported(status: u16, location: Seq<char>)
    ensures
        is_redirection(status) <==> status / 100 == 3,
        redirect_reply(status, Some(location)) == "HTTP "@ + decimal(status as nat)
            + " redirect to "@ + location
            + ". Redirects are not followed automatically; fetch that URL explicitly if you still want it."@,
        redirect_reply(status, None) == "HTTP "@ + decimal(status as nat) + " redirect to "@
            + "(none)"@
            + ". Redirects are not followed automatically; fetch that URL explicitly if you still want it."@,
{
}

/// Enough of a body is read to tell one within the limit from one past it.
pub proof fn law_more_than_the_limit_is_read(limit: usize)
    ensures
        limit < usize::MAX ==> read_limit(limit) == limit + 1,
        limit == usize::MAX ==> read_limit(limit) == usize::MAX,
{
}

/// A body within the limit is shown whole, behind the status and an empty line;
/// of one past the limit the bytes up to it are shown, with a note.
pub proof fn law_bodies_are_shown_up_to_the_limit(status: u16, limit: usize, body: Seq<u8>)
    ensures
        body.len() <= limit ==> body_reply(status, limit, body) == "HTTP "@ + decimal(status as nat)
            + "\n\n"@ + lossy_text(body),
        body.len() > limit ==> body_reply(status, limit, body) == "HTTP "@ + decimal(status as nat)
            + " (truncated to "@ + decimal(limit as nat) + " bytes)"@ + "\n\n"@ + lossy_text(
            body.subrange(0, limit as int),
        ),
{
    if body.len() > limit {
        assert(body.take(limit as int) =~= body.subrange(0, limit as int));
    }
}

/// A body that is valid UTF-8 and within the limit is replied whole, character
/// for character.
pub proof fn law_whole_bodies_are_replied(
    fetch: &HttpFetch,
    status: u16,
    body: &[u8],
    reply: String,
)
    requires
        call_ensures(HttpFetch::on_body, (fetch, status, body), reply),
        valid_utf8(body@),
        body@.len() <= fetch.limit,
    ensures
        reply@ == "HTTP "@ + decimal(status as nat) + "\n\n"@ + decode_utf8(body@),
{
}

/// Different bodies that are valid UTF-8 and within the limit are replied
/// differently.
pub proof fn law_different_bodies_are_replied_differently(
    fetch: &HttpFetch,
    status: u16,
    body: &[u8],
    reply: String,
    other: &[u8],
    other_reply: String,
)
    requires
        call_ensures(HttpFetch::on_body, (fetch, status, body), reply),
        call_ensures(HttpFetch::on_body, (fetch, status, other), other_reply),
        valid_utf8(body@),
        valid_utf8(other@),
        body@.len() <= fetch.limit,
        other@.len() <= fetch.limit,
        reply@ == other_reply@,
    ensures
        body@ == other@,
{
    let head = "HTTP "@ + decimal(status as nat) + "\n\n"@;
    assert(reply@.skip(head.len() as int) =~= decode_utf8(body@));
    assert(other_reply@.skip(head.len() as int) =~= decode_utf8(other@));
    decode_utf8_encode_utf8(body@);
    decode_utf8_encode_utf8(other@);
}

// ---------------------------------------------------------------------------
// Descriptions
// ---------------------------------------------------------------------------

/// Every tool is described under its own name, with an object for its input: the
/// arguments that it reads, all of them strings and all of them required, and no
/// other. Nothing else is described.
pub proof fn law_tools_are_described_by_their_arguments(name: Seq<char>)
    ensures
        described(name) is Some <==> name == "now"@ || name == "http_get"@ || name == "kv_get"@ || name
            == "kv_put"@,
        described(name) matches Some(tool) ==> {
            &&& tool.name == name
            &&& tool.input_schema is Object
            &&& tool.input_schema->Object_0["type"@] == JsonTree::Text("object"@)
            &&& tool.input_schema->Object_0["properties"@] is Object
            &&& tool.input_schema->Object_0["required"@] is List
            &&& ({
                let properties = tool.input_schema->Object_0["properties"@]->Object_0;
                let required = tool.input_schema->Object_0["required"@]->List_0;
                &&& name == "now"@ ==> {
                    &&& tool.description == NOW_DESCRIPTION@
                    &&& required == Seq::<JsonTree>::empty()
                    &&& properties == Map::<Seq<char>, JsonTree>::empty()
                }
                &&& name == "http_get"@ ==> {
                    &&& tool.description == HTTP_GET_DESCRIPTION@
                    &&& required == seq![JsonTree::Text("url"@)]
                    &&& properties.dom() == set!["url"@]
                    &&& properties["url"@] is Object
                    &&& properties["url"@]->Object_0["type"@] == JsonTree::Text("string"@)
                }
                &&& name == "kv_get"@ ==> {
                    &&& tool.description == KV_GET_DESCRIPTION@
                    &&& required == seq![JsonTree::Text("key"@)]
                    &&& properties == map![
                        "key"@ => JsonTree::Object(map!["type"@ => JsonTree::Text("string"@)]),
                    ]
                }
                &&& name == "kv_put"@ ==> {
                    &&& tool.description == KV_PUT_DESCRIPTION@
                    &&& required == seq![JsonTree::Text("key"@), JsonTree::Text("value"@)]
                    &&& properties == map![
                        "key"@ => JsonTree::Object(map!["type"@ => JsonTree::Text("string"@)]),
                        "value"@ => JsonTree::Object(map!["type"@ => JsonTree::Text("string"@)]),
                    ]
                }
            })
        },
{
    lemma_names_differ();
    lemma_schema_names();
    if name == "http_get"@ {
        let properties = described(
            name,
        )->Some_0.input_schema->Object_0["properties"@]->Object_0;
        assert(properties.dom() =~= set!["url"@]);
    }
}

proof fn lemma_schema_names()
    ensures
        "type"@ != "properties"@,
        "type"@ != "required"@,
        "properties"@ != "required"@,
        "type"@ != "description"@,
{
    reveal_strlit("type");
    reveal_strlit("properties");
    reveal_strlit("required");
    reveal_strlit("description");
    assert("type"@.len() == 4);
    assert("properties"@.len() == 10);
    assert("required"@.len() == 8);
    assert("description"@.len() == 11);
}

/// Whether `at` lists the places of all known names, each once, in order.
pub open spec fn known_places(names: Seq<Seq<char>>, at: Seq<int>) -> bool {
    places(
        names,
        |name: Seq<char>|
            name == "now"@ || name == "http_get"@ || name == "kv_get"@ || name == "kv_put"@,
        at,
    )
}

/// The tools described for a list of names are those with a known name, each as
/// often as it is listed, in order.
pub proof fn law_known_names_are_described(names: Seq<Seq<char>>)
    ensures
        exists|at: Seq<int>|
            {
                &&& #[trigger] known_places(names, at)
                &&& described_all(names).len() == at.len()
                &&& forall|k: int|
                    0 <= k < at.len() ==> described(names[#[trigger] at[k]]) == Some(
                        described_all(names)[k],
                    )
            },
    decreases names.len(),
{
    let wanted = |name: Seq<char>|
        name == "now"@ || name == "http_get"@ || name == "kv_get"@ || name == "kv_put"@;
    if names.len() == 0 {
        let at: Seq<int> = seq![];
        assert(known_places(names, at));
    } else {
        let rest = names.drop_last();
        law_known_names_are_described(rest);
        let at = choose|at: Seq<int>|
            {
                &&& #[trigger] known_places(rest, at)
                &&& described_all(rest).len() == at.len()
                &&& forall|k: int|
                    0 <= k < at.len() ==> described(rest[#[trigger] at[k]]) == Some(
                        described_all(rest)[k],
                    )
            };
        lemma_places_push(names, wanted, at);
        law_tools_are_described_by_their_arguments(names.last());
        let all = if wanted(names.last()) {
            at.push(names.len() - 1)
        } else {
            at
        };
        assert(known_places(names, all));
        assert forall|k: int| 0 <= k < all.len() implies described(names[#[trigger] all[k]])
            == Some(described_all(names)[k]) by {
            if k < at.len() {
                assert(0 <= at[k] < rest.len());
                assert(rest[at[k]] == names[all[k]]);
            }
        }
    }
}

} // verus!
