//! What holds of every tool call.

use vstd::prelude::*;

use crate::abi::{denied_error, CapErrorView};
use crate::json::{text_member, JsonTree};
use crate::policy::{KvToolConfig, Policy};
use crate::text::{byte_len, debug_text, texts};
use crate::tools::{
    described, described_all, invoked, known_tool, kv_after, kv_get_reply, kv_put_after,
    kv_put_reply, recalled, tool_enabled, url_of, ToolReplyView,
};

verus! {

/// The four tools have different names.
pub(crate) proof fn lemma_names_differ()
    ensures
        "now"@ != "http_get"@,
        "now"@ != "kv_get"@,
        "now"@ != "kv_put"@,
        "http_get"@ != "kv_get"@,
        "http_get"@ != "kv_put"@,
        "kv_get"@ != "kv_put"@,
{
    reveal_strlit("now");
    reveal_strlit("http_get");
    reveal_strlit("kv_get");
    reveal_strlit("kv_put");
    assert("now"@.len() == 3);
    assert("http_get"@.len() == 8);
    assert("kv_get"@.len() == 6);
    assert("kv_put"@.len() == 6);
    assert("kv_get"@[3] == 'g');
    assert("kv_put"@[3] == 'p');
}

/// The failures that a tool call can report have different kinds.
proof fn lemma_kinds_differ()
    ensures
        "denied"@ != "not_found"@,
        "invalid"@ != "not_found"@,
        "denied"@ != "invalid"@,
{
    reveal_strlit("denied");
    reveal_strlit("not_found");
    reveal_strlit("invalid");
    assert("denied"@.len() == 6);
    assert("not_found"@.len() == 9);
    assert("invalid"@.len() == 7);
}

/// A tool that the policy does not enable is refused, whatever its arguments,
/// even though the host implements it; and the call changes nothing.
pub proof fn law_disabled_tools_are_denied(
    policy: Policy,
    kv: Map<Seq<char>, Seq<char>>,
    name: Seq<char>,
    input: JsonTree,
)
    requires
        !tool_enabled(policy, name),
    ensures
        invoked(policy, kv, name, input) == Err::<ToolReplyView, CapErrorView>(
            denied_error(
                "tool "@ + debug_text(name) + " is not enabled by this host's policy"@,
            ),
        ),
        kv_after(policy, kv, name, input) == kv,
{
}

/// Every tool that is described to the model is enabled and known.
pub proof fn law_described_tools_are_enabled(policy: Policy, i: int)
    requires
        0 <= i < described_all(texts(policy.tools.enabled@)).len(),
    ensures
        tool_enabled(policy, described_all(texts(policy.tools.enabled@))[i].name),
        known_tool(described_all(texts(policy.tools.enabled@))[i].name),
{
    let names = texts(policy.tools.enabled@);
    lemma_described(names, i);
}

proof fn lemma_described(names: Seq<Seq<char>>, i: int)
    requires
        0 <= i < described_all(names).len(),
    ensures
        names.contains(described_all(names)[i].name),
        known_tool(described_all(names)[i].name),
    decreases names.len(),
{
    let rest = names.drop_last();
    let name = described_all(names)[i].name;
    if i < described_all(rest).len() {
        lemma_described(rest, i);
        let k = choose|k: int| 0 <= k < rest.len() && rest[k] == name;
        assert(names[k] == name);
    } else {
        assert(names[names.len() - 1] == name);
    }
}

/// Under a valid policy every enabled tool is described to the model, in the
/// policy's order.
pub proof fn law_enabled_tools_are_described(policy: Policy)
    requires
        policy.valid(),
    ensures
        described_all(texts(policy.tools.enabled@)).len() == policy.tools.enabled@.len(),
        forall|i: int|
            0 <= i < policy.tools.enabled@.len() ==> (#[trigger] described_all(
                texts(policy.tools.enabled@),
            )[i]).name == texts(policy.tools.enabled@)[i],
{
    lemma_all_described(texts(policy.tools.enabled@));
}

proof fn lemma_all_described(names: Seq<Seq<char>>)
    requires
        forall|i: int| 0 <= i < names.len() ==> known_tool(#[trigger] names[i]),
    ensures
        described_all(names).len() == names.len(),
        forall|i: int|
            0 <= i < names.len() ==> (#[trigger] described_all(names)[i]).name == names[i],
    decreases names.len(),
{
    if names.len() > 0 {
        let rest = names.drop_last();
        assert forall|i: int| 0 <= i < rest.len() implies known_tool(#[trigger] rest[i]) by {
            assert(rest[i] == names[i]);
        }
        lemma_all_described(rest);
        assert(known_tool(names[names.len() - 1]));
        assert forall|i: int| 0 <= i < names.len() implies (#[trigger] described_all(
            names,
        )[i]).name == names[i] by {
            if i < rest.len() {
                assert(described_all(rest)[i].name == rest[i]);
            }
        }
    }
}

/// Under a valid policy every enabled tool exists: no call of one is answered
/// that there is no such tool.
pub proof fn law_enabled_tools_exist(
    policy: Policy,
    kv: Map<Seq<char>, Seq<char>>,
    name: Seq<char>,
    input: JsonTree,
)
    requires
        policy.valid(),
        tool_enabled(policy, name),
        name != "now"@,
    ensures
        described(name) is Some,
        invoked(policy, kv, name, input) matches Err(error) ==> error.kind != "not_found"@,
{
    let names = texts(policy.tools.enabled@);
    let i = choose|i: int| 0 <= i < names.len() && names[i] == name;
    assert(known_tool(names[i]));
    lemma_names_differ();
    lemma_kinds_differ();
}

/// Nothing is fetched but by the fetch tool, when it is enabled, over https, and
/// from a host on the allowlist; the URL fetched is the one that the agent gave,
/// and no more is shown of the answer than the policy allows.
pub proof fn law_only_allowed_hosts_are_fetched(
    policy: Policy,
    kv: Map<Seq<char>, Seq<char>>,
    name: Seq<char>,
    input: JsonTree,
)
    requires
        invoked(policy, kv, name, input) matches Ok(ToolReplyView::Fetch(_)),
    ensures
        ({
            let fetch = invoked(policy, kv, name, input)->Ok_0->Fetch_0;
            &&& name == "http_get"@
            &&& tool_enabled(policy, name)
            &&& text_member(input, "url"@) is Some
            &&& url_of(text_member(input, "url"@)->Some_0) matches Ok(url)
            &&& url.scheme == "https"@
            &&& url.host == Some(fetch.host)
            &&& fetch.url == url.url
            &&& policy.tools.http.covers(fetch.host)
            &&& fetch.limit == policy.tools.http.max_response_bytes
        }),
{
}

/// What was stored under a key is what a lookup replies, and other keys are as
/// they were.
pub proof fn law_stored_values_are_recalled(
    limits: KvToolConfig,
    kv: Map<Seq<char>, Seq<char>>,
    stored: JsonTree,
    asked: JsonTree,
)
    requires
        kv_put_reply(limits, kv, stored) is Ok,
        text_member(asked, "key"@) is Some,
    ensures
        ({
            let key = text_member(stored, "key"@)->Some_0;
            let value = text_member(stored, "value"@)->Some_0;
            let wanted = text_member(asked, "key"@)->Some_0;
            kv_get_reply(kv_put_after(limits, kv, stored), asked) == Ok::<ToolReplyView, CapErrorView>(
                ToolReplyView::Text(
                    if wanted == key {
                        value
                    } else {
                        recalled(kv, wanted)
                    },
                ),
            )
        }),
{
}

/// A refused entry leaves the scratchpad as it was.
pub proof fn law_refused_entries_change_nothing(
    limits: KvToolConfig,
    kv: Map<Seq<char>, Seq<char>>,
    input: JsonTree,
)
    requires
        kv_put_reply(limits, kv, input) is Err,
    ensures
        kv_put_after(limits, kv, input) == kv,
{
}

/// An entry is refused exactly when its value is too long, or when its key is
/// new and there is no room for another.
pub proof fn law_scratchpad_caps(
    limits: KvToolConfig,
    kv: Map<Seq<char>, Seq<char>>,
    input: JsonTree,
)
    requires
        text_member(input, "key"@) is Some,
        text_member(input, "value"@) is Some,
    ensures
        ({
            let key = text_member(input, "key"@)->Some_0;
            let value = text_member(input, "value"@)->Some_0;
            &&& kv_put_reply(limits, kv, input) is Err <==> byte_len(value)
                > limits.max_value_bytes || (!kv.contains_key(key) && kv.len() >= limits.max_keys)
            &&& kv_put_reply(limits, kv, input) matches Err(error) ==> error.kind == "denied"@
        }),
{
}

} // verus!
