//! A deterministic stand-in for a model, so the sandbox, the tool surface, and
//! the agent loop can be exercised end to end with no network and no API key.

use vstd::prelude::*;
use vstd::slice::*;
use vstd::string::*;

use crate::abi::{
    block_texts, blocks, message_views, push_block_texts, tool_views, CapError, Content, ContentView, KnownContent,
    LlmRequest, LlmRequestView, LlmResponse, LlmResponseView, Message, MessageView, ToolSpec, ToolSpecView,
    Usage,
};
use crate::json::{empty_object, json_of, json_tree, parse_json, JsonTree};
use crate::llm::LlmProvider;
use crate::text::{
    begins_with, chars_of, decimal, first_white, join, joined, lines, lines_of, push_decimal, same, string_of,
    texts, trim, trimmed, until, white,
};

verus! {

// ---------------------------------------------------------------------------
// Directives
// ---------------------------------------------------------------------------

/// The tool and the argument text that a line names, if it is a directive
/// `!tool <name> <json-args>`. Without arguments the text is `{}`.
pub open spec fn directive(line: Seq<char>) -> Option<(Seq<char>, Seq<char>)> {
    let line = trim(line);
    if "!tool "@.is_prefix_of(line) {
        let rest = line.skip(6);
        let n = until(rest, |c: char| white(c));
        if n < rest.len() {
            Some((trim(rest.take(n as int)), trim(rest.skip(n as int + 1))))
        } else {
            Some((trim(rest), "{}"@))
        }
    } else {
        None
    }
}

/// The directives among the lines, in order.
pub open spec fn directives(all: Seq<Seq<char>>) -> Seq<(Seq<char>, Seq<char>)>
    decreases all.len(),
{
    if all.len() == 0 {
        Seq::empty()
    } else {
        match directive(all.last()) {
            Some(found) => directives(all.drop_last()).push(found),
            None => directives(all.drop_last()),
        }
    }
}

/// The input that an argument text stands for: its JSON value, or the empty
/// object where it is malformed.
pub open spec fn input_of(parsed: Option<JsonTree>) -> JsonTree {
    match parsed {
        Some(tree) => tree,
        None => JsonTree::Object(Map::empty()),
    }
}

/// A tool call that a task asks for.
pub open spec fn call_of(found: (Seq<char>, Seq<char>)) -> (Seq<char>, JsonTree) {
    (found.0, input_of(json_of(found.1)))
}

/// The tool calls that a task asks for, in order.
pub open spec fn requested_calls(task: Seq<char>) -> Seq<(Seq<char>, JsonTree)> {
    directives(lines(task)).map_values(|found: (Seq<char>, Seq<char>)| call_of(found))
}

/// The contents of tool calls.
pub open spec fn call_views(calls: Seq<(String, serde_json::Value)>) -> Seq<(Seq<char>, JsonTree)> {
    calls.map_values(|call: (String, serde_json::Value)| (call.0@, json_tree(call.1)))
}

/// The tool and the argument text that a line names, if it is a directive.
pub fn split_directive(line: &[char]) -> (found: Option<(String, String)>)
    ensures
        match found {
            Some((name, args)) => directive(line@) == Some((name@, args@)),
            None => directive(line@) is None,
        },
{
    let line = trimmed(line);
    let marker = chars_of("!tool ");
    proof {
        reveal_strlit("!tool ");
    }
    if !begins_with(line, marker.as_slice()) {
        return None;
    }
    let rest = slice_subrange(line, 6, line.len());
    proof {
        assert(rest@ =~= line@.skip(6));
    }
    let n: usize = first_white(rest);
    if n < rest.len() {
        let name = slice_subrange(rest, 0, n);
        let args = slice_subrange(rest, n + 1, rest.len());
        proof {
            assert(name@ =~= rest@.take(n as int));
            assert(args@ =~= rest@.skip(n + 1));
        }
        Some((string_of(trimmed(name)), string_of(trimmed(args))))
    } else {
        Some((string_of(trimmed(rest)), "{}".to_string()))
    }
}

/// The input that an argument text stands for, given what it parsed to.
pub fn input_or_empty(parsed: Option<serde_json::Value>) -> (input: serde_json::Value)
    ensures
        json_tree(input) == input_of(
            match parsed {
                Some(value) => Some(json_tree(value)),
                None => None,
            },
        ),
{
    match parsed {
        Some(value) => value,
        None => empty_object(),
    }
}

/// Pull `!tool <name> <json>` directives out of the task text.
pub fn parse_directives(task: &str) -> (calls: Vec<(String, serde_json::Value)>)
    ensures
        call_views(calls@) == requested_calls(task@),
{
    let chars = chars_of(task);
    let all = lines_of(chars.as_slice());
    let ghost shown = lines(task@);
    let ghost called = |found: (Seq<char>, Seq<char>)| call_of(found);
    let mut calls: Vec<(String, serde_json::Value)> = Vec::new();
    let mut i: usize = 0;
    proof {
        assert(all@.map_values(|line: &[char]| line@).len() == all@.len());
        assert(call_views(calls@) =~= directives(shown.take(0)).map_values(called));
    }
    while i < all.len()
        invariant
            i <= all.len(),
            all@.map_values(|line: &[char]| line@) == shown,
            called == (|found: (Seq<char>, Seq<char>)| call_of(found)),
            call_views(calls@) == directives(shown.take(i as int)).map_values(called),
        decreases all.len() - i,
    {
        let ghost before = calls@;
        let ghost earlier = directives(shown.take(i as int));
        proof {
            assert(shown.take(i + 1).drop_last() =~= shown.take(i as int));
            assert(shown[i as int] == all@[i as int]@);
        }
        if let Some((name, args)) = split_directive(all[i]) {
            let input = input_or_empty(parse_json(args.as_str()));
            calls.push((name, input));
            proof {
                assert(call_views(calls@) =~= call_views(before).push((name@, json_tree(input))));
                assert(earlier.push((name@, args@)).map_values(called) =~= earlier.map_values(
                    called,
                ).push(called((name@, args@))));
            }
        }
        i = i + 1;
    }
    proof {
        assert(shown.take(all@.len() as int) =~= shown);
    }
    calls
}

/// The first line of a text, without the white space around it.
pub open spec fn heading(s: Seq<char>) -> Seq<char> {
    if lines(s).len() > 0 {
        trim(lines(s)[0])
    } else {
        Seq::empty()
    }
}

pub fn first_line(s: &str) -> (line: String)
    ensures
        line@ == heading(s@),
{
    let chars = chars_of(s);
    let all = lines_of(chars.as_slice());
    proof {
        assert(all@.map_values(|line: &[char]| line@).len() == all@.len());
    }
    if all.len() > 0 {
        proof {
            assert(lines(s@)[0] == all@[0]@);
        }
        string_of(trimmed(all[0]))
    } else {
        String::new()
    }
}

// ---------------------------------------------------------------------------
// What a conversation holds
// ---------------------------------------------------------------------------

/// The text of each text block of a conversation in order.
pub open spec fn all_texts(messages: Seq<MessageView>) -> Seq<Seq<char>>
    decreases messages.len(),
{
    if messages.len() == 0 {
        Seq::empty()
    } else {
        all_texts(messages.drop_last()) + block_texts(messages.last().content)
    }
}

/// The text of each tool result among the blocks in order.
pub open spec fn block_results(content: Seq<ContentView>) -> Seq<Seq<char>>
    decreases content.len(),
{
    if content.len() == 0 {
        Seq::empty()
    } else {
        match content.last() {
            ContentView::ToolResult { tool_use_id, content: text, is_error } => block_results(
                content.drop_last(),
            ).push(text),
            _ => block_results(content.drop_last()),
        }
    }
}

/// The text of each tool result of a conversation in order.
pub open spec fn all_results(messages: Seq<MessageView>) -> Seq<Seq<char>>
    decreases messages.len(),
{
    if messages.len() == 0 {
        Seq::empty()
    } else {
        all_results(messages.drop_last()) + block_results(messages.last().content)
    }
}

/// The task that a conversation poses.
pub open spec fn task_of(messages: Seq<MessageView>) -> Seq<char> {
    join(all_texts(messages), "\n"@)
}

/// Whether a tool is among those offered.
pub open spec fn offered(tools: Seq<ToolSpecView>, name: Seq<char>) -> bool {
    exists|i: int| 0 <= i < tools.len() && (#[trigger] tools[i]).name == name
}

/// The calls of offered tools, numbered in order.
pub open spec fn mock_calls(
    tools: Seq<ToolSpecView>,
    calls: Seq<(Seq<char>, JsonTree)>,
) -> Seq<ContentView>
    decreases calls.len(),
{
    if calls.len() == 0 {
        Seq::empty()
    } else {
        let earlier = mock_calls(tools, calls.drop_last());
        if offered(tools, calls.last().0) {
            earlier.push(
                ContentView::ToolUse {
                    id: "toolu_mock_"@ + decimal(earlier.len()),
                    name: calls.last().0,
                    input: calls.last().1,
                },
            )
        } else {
            earlier
        }
    }
}

/// The answer to a conversation that needs no tool, or no further one.
pub open spec fn mock_answer(messages: Seq<MessageView>) -> Seq<char> {
    if all_results(messages).len() == 0 {
        "[mock] No tools were needed. Task was: "@ + heading(task_of(messages))
    } else {
        "[mock] Tool results: "@ + join(all_results(messages), " | "@)
    }
}

/// How the stand-in answers a request whose task asks for these calls.
pub open spec fn mock_turn_of(
    request: LlmRequestView,
    calls: Seq<(Seq<char>, JsonTree)>,
) -> LlmResponseView {
    let uses = mock_calls(request.tools, calls);
    if all_results(request.messages).len() == 0 && uses.len() > 0 {
        LlmResponseView {
            stop_reason: "tool_use"@,
            content: uses,
            usage: Usage { input_tokens: 100, output_tokens: 20 },
        }
    } else {
        LlmResponseView {
            stop_reason: "end_turn"@,
            content: seq![ContentView::Text { text: mock_answer(request.messages) }],
            usage: Usage { input_tokens: 120, output_tokens: 30 },
        }
    }
}

/// Adds the text of each tool result in order to `out`.
fn push_block_results(out: &mut Vec<String>, content: &Vec<Content>)
    ensures
        texts(final(out)@) == texts(old(out)@) + block_results(blocks(content@)),
{
    let ghost before = texts(out@);
    let mut i: usize = 0;
    while i < content.len()
        invariant
            i <= content.len(),
            texts(out@) == before + block_results(blocks(content@).take(i as int)),
        decreases content.len() - i,
    {
        let ghost earlier = out@;
        proof {
            assert(blocks(content@).take(i + 1).drop_last() =~= blocks(content@).take(i as int));
        }
        match &content[i] {
            Content::Known(KnownContent::ToolResult { tool_use_id, content: text, is_error }) => {
                out.push(text.clone());
                proof {
                    assert(texts(out@) =~= texts(earlier).push(text@));
                }
            },
            _ => {},
        }
        i = i + 1;
    }
    proof {
        assert(blocks(content@).take(content@.len() as int) =~= blocks(content@));
    }
}

/// The text of each text block of a conversation in order.
fn conversation_texts(messages: &Vec<Message>) -> (out: Vec<String>)
    ensures
        texts(out@) == all_texts(message_views(messages@)),
{
    let ghost shown = message_views(messages@);
    let mut out: Vec<String> = Vec::new();
    let mut i: usize = 0;
    proof {
        assert(texts(out@) =~= all_texts(shown.take(0)));
    }
    while i < messages.len()
        invariant
            i <= messages.len(),
            shown == message_views(messages@),
            texts(out@) == all_texts(shown.take(i as int)),
        decreases messages.len() - i,
    {
        proof {
            assert(shown.take(i + 1).drop_last() =~= shown.take(i as int));
        }
        push_block_texts(&mut out, &messages[i].content);
        i = i + 1;
    }
    proof {
        assert(shown.take(shown.len() as int) =~= shown);
    }
    out
}

/// The text of each tool result of a conversation in order.
fn conversation_results(messages: &Vec<Message>) -> (out: Vec<String>)
    ensures
        texts(out@) == all_results(message_views(messages@)),
{
    let ghost shown = message_views(messages@);
    let mut out: Vec<String> = Vec::new();
    let mut i: usize = 0;
    proof {
        assert(texts(out@) =~= all_results(shown.take(0)));
    }
    while i < messages.len()
        invariant
            i <= messages.len(),
            shown == message_views(messages@),
            texts(out@) == all_results(shown.take(i as int)),
        decreases messages.len() - i,
    {
        proof {
            assert(shown.take(i + 1).drop_last() =~= shown.take(i as int));
        }
        push_block_results(&mut out, &messages[i].content);
        i = i + 1;
    }
    proof {
        assert(shown.take(shown.len() as int) =~= shown);
    }
    out
}

/// Whether a tool is among those offered.
fn is_offered(tools: &Vec<ToolSpec>, name: &str) -> (yes: bool)
    ensures
        yes == offered(tool_views(tools@), name@),
{
    let mut i: usize = 0;
    while i < tools.len()
        invariant
            i <= tools.len(),
            forall|k: int| 0 <= k < i ==> (#[trigger] tool_views(tools@)[k]).name != name@,
        decreases tools.len() - i,
    {
        if same(tools[i].name.as_str(), name) {
            assert(tool_views(tools@)[i as int].name == name@);
            return true;
        }
        i = i + 1;
    }
    false
}

/// The calls of offered tools, numbered in order.
fn offered_calls(tools: &Vec<ToolSpec>, calls: &Vec<(String, serde_json::Value)>) -> (uses: Vec<
    Content,
>)
    ensures
        blocks(uses@) == mock_calls(tool_views(tools@), call_views(calls@)),
{
    let ghost shown = call_views(calls@);
    let mut uses: Vec<Content> = Vec::new();
    let mut i: usize = 0;
    proof {
        assert(blocks(uses@) =~= mock_calls(tool_views(tools@), shown.take(0)));
    }
    while i < calls.len()
        invariant
            i <= calls.len(),
            shown == call_views(calls@),
            blocks(uses@) == mock_calls(tool_views(tools@), shown.take(i as int)),
        decreases calls.len() - i,
    {
        let ghost before = uses@;
        proof {
            assert(shown.take(i + 1).drop_last() =~= shown.take(i as int));
            assert(blocks(before).len() == before.len());
        }
        if is_offered(tools, calls[i].0.as_str()) {
            let mut id = "toolu_mock_".to_string();
            push_decimal(&mut id, uses.len() as u128);
            let block = Content::Known(
                KnownContent::ToolUse {
                    id,
                    name: calls[i].0.clone(),
                    input: calls[i].1.clone(),
                },
            );
            uses.push(block);
            proof {
                assert(blocks(uses@) =~= blocks(before).push(block@));
            }
        }
        i = i + 1;
    }
    proof {
        assert(shown.take(shown.len() as int) =~= shown);
    }
    uses
}

/// How the stand-in answers a request whose task asks for these calls.
pub fn mock_turn(request: &LlmRequest, calls: &Vec<(String, serde_json::Value)>) -> (response: LlmResponse)
    ensures
        response@ == mock_turn_of(request@, call_views(calls@)),
{
    let results = conversation_results(&request.messages);
    proof {
        assert(texts(results@).len() == results@.len());
    }
    if results.len() == 0 {
        let uses = offered_calls(&request.tools, calls);
        proof {
            assert(blocks(uses@).len() == uses@.len());
        }
        if uses.len() > 0 {
            return LlmResponse {
                stop_reason: "tool_use".to_string(),
                content: uses,
                usage: Usage { input_tokens: 100, output_tokens: 20 },
            };
        }
    }
    let answer = if results.len() == 0 {
        let parts = conversation_texts(&request.messages);
        let task = joined(&parts, "\n");
        let mut answer = "[mock] No tools were needed. Task was: ".to_string();
        answer.append(first_line(task.as_str()).as_str());
        answer
    } else {
        let mut answer = "[mock] Tool results: ".to_string();
        answer.append(joined(&results, " | ").as_str());
        answer
    };
    let mut content: Vec<Content> = Vec::new();
    content.push(Content::text(answer.as_str()));
    proof {
        assert(blocks(content@) =~= seq![ContentView::Text { text: answer@ }]);
    }
    LlmResponse {
        stop_reason: "end_turn".to_string(),
        content,
        usage: Usage { input_tokens: 120, output_tokens: 30 },
    }
}

/// The stand-in model.
///
/// It drives the loop from directives embedded in the task: a line of the form
/// `!tool <name> <json-args>` becomes a tool call on the first turn. Once the
/// results come back, it answers with a summary.
pub struct MockProvider;

impl LlmProvider for MockProvider {
    fn complete(&self, request: &LlmRequest) -> (response: Result<LlmResponse, CapError>)
        ensures
            response is Ok,
            response->Ok_0@ == mock_turn_of(request@, requested_calls(task_of(request@.messages))),
    {
        let parts = conversation_texts(&request.messages);
        let task = joined(&parts, "\n");
        let calls = parse_directives(task.as_str());
        Ok(mock_turn(request, &calls))
    }

    fn describe(&self) -> (name: String)
        ensures
            name@ == "mock"@,
    {
        "mock".to_string()
    }
}

// ---------------------------------------------------------------------------
// Laws
// ---------------------------------------------------------------------------

/// Every call in the list names an offered tool.
proof fn lemma_mock_calls_are_offered(tools: Seq<ToolSpecView>, calls: Seq<(Seq<char>, JsonTree)>)
    ensures
        forall|i: int|
            0 <= i < mock_calls(tools, calls).len() ==> {
                &&& #[trigger] mock_calls(tools, calls)[i] is ToolUse
                &&& offered(tools, mock_calls(tools, calls)[i]->ToolUse_name)
            },
    decreases calls.len(),
{
    if calls.len() > 0 {
        lemma_mock_calls_are_offered(tools, calls.drop_last());
    }
}

/// The stand-in only calls tools that the request offers.
pub proof fn law_mock_only_calls_offered_tools(
    request: LlmRequestView,
    calls: Seq<(Seq<char>, JsonTree)>,
)
    ensures
        forall|i: int|
            0 <= i < mock_turn_of(request, calls).content.len() && #[trigger] mock_turn_of(
                request,
                calls,
            ).content[i] is ToolUse ==> offered(
                request.tools,
                mock_turn_of(request, calls).content[i]->ToolUse_name,
            ),
{
    lemma_mock_calls_are_offered(request.tools, calls);
}

/// Once results have come back, the stand-in answers and calls no further tool.
pub proof fn law_mock_answers_once_results_are_back(
    request: LlmRequestView,
    calls: Seq<(Seq<char>, JsonTree)>,
)
    requires
        all_results(request.messages).len() > 0,
    ensures
        mock_turn_of(request, calls).stop_reason == "end_turn"@,
        mock_turn_of(request, calls).content == seq![
            ContentView::Text {
                text: "[mock] Tool results: "@ + join(all_results(request.messages), " | "@),
            },
        ],
{
}

} // verus!
