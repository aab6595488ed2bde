//! What a policy permits, in terms of what it holds.

use vstd::prelude::*;

use crate::policy::{
    rule_covers, Effort, HttpToolConfig, Policy, PolicyErrorView, Thinking,
};
use crate::text::{ascii_lower, debug_text, texts, trim};

verus! {

/// A policy is valid exactly if it grants fuel, time and steps, at least a
/// mebibyte of memory, asks for no effort that needs thinking without it, and
/// enables no tool but the four that there are.
pub proof fn law_valid_policies_keep_every_rule(policy: Policy)
    ensures
        policy.valid() <==> {
            &&& policy.limits.fuel > 0
            &&& policy.limits.wall_clock_ms > 0
            &&& policy.limits.max_steps > 0
            &&& policy.limits.memory_bytes >= 1_048_576
            &&& policy.llm.thinking == Thinking::Adaptive || policy.llm.effort == Effort::Low
                || policy.llm.effort == Effort::Medium || policy.llm.effort == Effort::High
            &&& forall|i: int|
                0 <= i < policy.tools.enabled@.len() ==> {
                    let name = (#[trigger] policy.tools.enabled@[i])@;
                    name == "now"@ || name == "http_get"@ || name == "kv_get"@ || name == "kv_put"@
                }
        },
{
    let names = texts(policy.tools.enabled@);
    assert forall|i: int| 0 <= i < policy.tools.enabled@.len() implies #[trigger] names[i]
        == policy.tools.enabled@[i]@ by {}
    if policy.valid() {
        assert forall|i: int| 0 <= i < policy.tools.enabled@.len() implies {
            let name = (#[trigger] policy.tools.enabled@[i])@;
            name == "now"@ || name == "http_get"@ || name == "kv_get"@ || name == "kv_put"@
        } by {
            assert(crate::tools::known_tool(names[i]));
        }
    }
}

/// The complaint about a policy is about the first rule that it breaks.
pub proof fn law_the_first_broken_rule_is_named(policy: Policy)
    ensures
        policy.fault() == Some(PolicyErrorView::NoFuel) <==> policy.limits.fuel == 0,
        policy.fault() == Some(PolicyErrorView::NoWallClock) <==> policy.limits.fuel > 0
            && policy.limits.wall_clock_ms == 0,
        policy.fault() == Some(PolicyErrorView::NoSteps) <==> policy.limits.fuel > 0
            && policy.limits.wall_clock_ms > 0 && policy.limits.max_steps == 0,
        policy.fault() == Some(PolicyErrorView::TooLittleMemory) <==> policy.limits.fuel > 0
            && policy.limits.wall_clock_ms > 0 && policy.limits.max_steps > 0
            && policy.limits.memory_bytes < 1_048_576,
        policy.fault() matches Some(PolicyErrorView::ThinkingDisabled(effort)) ==> effort
            == policy.llm.effort && policy.llm.thinking == Thinking::Disabled && (effort
            == Effort::XHigh || effort == Effort::Max),
        policy.fault() matches Some(PolicyErrorView::UnknownTool(name)) ==> {
            &&& exists|i: int|
                {
                    &&& 0 <= i < policy.tools.enabled@.len()
                    &&& name == (#[trigger] policy.tools.enabled@[i])@
                    &&& forall|k: int|
                        0 <= k < i ==> crate::tools::known_tool(
                            (#[trigger] policy.tools.enabled@[k])@,
                        )
                }
            &&& name != "now"@ && name != "http_get"@ && name != "kv_get"@ && name != "kv_put"@
        },
{
    let names = texts(policy.tools.enabled@);
    if let Some(PolicyErrorView::UnknownTool(name)) = policy.fault() {
        let i = lemma_first_unknown_place(names);
        assert(name == policy.tools.enabled@[i]@);
        assert forall|k: int| 0 <= k < i implies crate::tools::known_tool(
            (#[trigger] policy.tools.enabled@[k])@,
        ) by {
            assert(names[k] == policy.tools.enabled@[k]@);
        }
    }
}

proof fn lemma_first_unknown_place(names: Seq<Seq<char>>) -> (place: int)
    requires
        crate::policy::first_unknown(names) is Some,
    ensures
        0 <= place < names.len(),
        crate::policy::first_unknown(names) == Some(names[place]),
        !crate::tools::known_tool(names[place]),
        forall|k: int| 0 <= k < place ==> crate::tools::known_tool(#[trigger] names[k]),
    decreases names.len(),
{
    let rest = names.drop_last();
    if crate::policy::first_unknown(rest) is Some {
        let place = lemma_first_unknown_place(rest);
        assert forall|k: int| 0 <= k < place implies crate::tools::known_tool(
            #[trigger] names[k],
        ) by {
            assert(rest[k] == names[k]);
        }
        place
    } else {
        crate::policy::lemma_first_unknown(rest);
        assert forall|k: int| 0 <= k < names.len() - 1 implies crate::tools::known_tool(
            #[trigger] names[k],
        ) by {
            assert(rest[k] == names[k]);
        }
        names.len() - 1
    }
}

/// The complaints in words.
pub proof fn law_complaints_name_what_is_wrong(effort: Effort, name: Seq<char>)
    ensures
        PolicyErrorView::NoFuel.message() == "limits.fuel must be greater than zero"@,
        PolicyErrorView::NoWallClock.message() == "limits.wall_clock_ms must be greater than zero"@,
        PolicyErrorView::NoSteps.message() == "limits.max_steps must be greater than zero"@,
        PolicyErrorView::TooLittleMemory.message() == "limits.memory_bytes must be at least 1 MiB"@,
        PolicyErrorView::ThinkingDisabled(effort).message()
            == "llm.thinking = \"disabled\" is only valid at effort \"high\" or lower (got "@ + (
        match effort {
            Effort::Low => "Low"@,
            Effort::Medium => "Medium"@,
            Effort::High => "High"@,
            Effort::XHigh => "XHigh"@,
            Effort::Max => "Max"@,
        }) + "); raise thinking or lower effort"@,
        PolicyErrorView::UnknownTool(name).message() == "tools.enabled lists unknown tool "@
            + debug_text(name),
{
}

// ---------------------------------------------------------------------------
// The allowlist
// ---------------------------------------------------------------------------

/// A host is covered exactly if a rule of the list covers it.
pub proof fn law_a_host_is_covered_by_a_rule(config: HttpToolConfig, host: Seq<char>)
    ensures
        config.covers(host) <==> exists|i: int|
            0 <= i < config.allowed_hosts@.len() && rule_covers(
                (#[trigger] config.allowed_hosts@[i])@,
                host,
            ),
{
    let rules = texts(config.allowed_hosts@);
    if config.covers(host) {
        let i = choose|i: int|
            0 <= i < config.allowed_hosts@.len() && rule_covers(#[trigger] rules[i], host);
        assert(rules[i] == config.allowed_hosts@[i]@);
    }
    if exists|i: int|
        0 <= i < config.allowed_hosts@.len() && rule_covers(
            (#[trigger] config.allowed_hosts@[i])@,
            host,
        ) {
        let i = choose|i: int|
            0 <= i < config.allowed_hosts@.len() && rule_covers(
                (#[trigger] config.allowed_hosts@[i])@,
                host,
            );
        assert(rules[i] == config.allowed_hosts@[i]@);
    }
}

/// A rule without a wildcard covers the host that it names, in whatever letter
/// case, and no other.
pub proof fn law_a_plain_rule_covers_its_host_alone(rule: Seq<char>, host: Seq<char>)
    requires
        !(trim(rule).len() >= 2 && trim(rule)[0] == '*' && trim(rule)[1] == '.'),
    ensures
        rule_covers(rule, host) <==> ascii_lower(host) == ascii_lower(trim(rule)),
{
    lemma_wildcard(rule);
}

/// A rule with a wildcard covers the domain behind it and every host below that
/// domain, in whatever letter case, and no other host.
pub proof fn law_a_wildcard_covers_its_domain(rule: Seq<char>, host: Seq<char>)
    requires
        trim(rule).len() >= 2,
        trim(rule)[0] == '*',
        trim(rule)[1] == '.',
    ensures
        ({
            let domain = ascii_lower(trim(rule).skip(2));
            rule_covers(rule, host) <==> ascii_lower(host) == domain || exists|label: Seq<char>|
                ascii_lower(host) == #[trigger] (label + seq!['.'] + domain)
        }),
{
    lemma_wildcard(rule);
    reveal_strlit(".");
    let lower = ascii_lower(trim(rule));
    let domain = ascii_lower(trim(rule).skip(2));
    assert(lower.skip(2) =~= domain);
    assert("."@ =~= seq!['.']);
    let name = ascii_lower(host);
    let dotted = "."@ + domain;
    if dotted.is_suffix_of(name) {
        let at = name.len() - dotted.len();
        let label = name.take(at);
        assert(dotted == name.subrange(at, name.len() as int));
        assert forall|i: int| 0 <= i < name.len() implies #[trigger] name[i] == (label + seq!['.']
            + domain)[i] by {
            if i >= at {
                assert(name.subrange(at, name.len() as int)[i - at] == dotted[i - at]);
            }
        }
        assert(name =~= label + seq!['.'] + domain);
    }
    if exists|label: Seq<char>| name == #[trigger] (label + seq!['.'] + domain) {
        let label = choose|label: Seq<char>| name == #[trigger] (label + seq!['.'] + domain);
        assert(dotted =~= name.subrange(name.len() - dotted.len(), name.len() as int));
    }
}

/// A rule has a wildcard exactly if it begins with a star and a dot.
proof fn lemma_wildcard(rule: Seq<char>)
    ensures
        "*."@.is_prefix_of(ascii_lower(trim(rule))) <==> trim(rule).len() >= 2 && trim(rule)[0]
            == '*' && trim(rule)[1] == '.',
{
    reveal_strlit("*.");
    let lower = ascii_lower(trim(rule));
    let mark = "*."@;
    assert(mark.len() == 2 && mark[0] == '*' && mark[1] == '.');
    if mark.is_prefix_of(lower) {
        assert(lower[0] == lower.subrange(0, 2)[0]);
        assert(lower[1] == lower.subrange(0, 2)[1]);
    }
    if lower.len() >= 2 && lower[0] == '*' && lower[1] == '.' {
        assert(mark =~= lower.subrange(0, 2));
    }
}

} // verus!
