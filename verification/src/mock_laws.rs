//! What the stand-in for a model makes of a conversation.

use vstd::prelude::*;

use crate::abi::{ContentView, LlmRequestView, LlmResponseView, MessageView, ToolSpecView, Usage};
use crate::json::{json_of, JsonTree};
use crate::mock::{
    all_results, all_texts, block_results, directive, directives, heading, input_of, mock_calls,
    mock_turn_of, offered, requested_calls, task_of,
};
use crate::text::{decimal, join, lemma_trim_end, lemma_until, lines, trim, trim_start, white};
use crate::text_laws::{law_trimmed_text_stays, lemma_places_push, places};

verus! {

// ---------------------------------------------------------------------------
// Directives
// ---------------------------------------------------------------------------

/// Trimming takes the white space around a text away.
proof fn lemma_trim_strips(before: Seq<char>, s: Seq<char>, after: Seq<char>)
    requires
        forall|i: int| 0 <= i < before.len() ==> white(#[trigger] before[i]),
        forall|i: int| 0 <= i < after.len() ==> white(#[trigger] after[i]),
        s.len() > 0,
        !white(s[0]),
        !white(s.last()),
    ensures
        trim(before + s + after) == s,
{
    let all = before + s + after;
    assert forall|i: int| 0 <= i < before.len() implies white(#[trigger] all[i]) by {
        assert(all[i] == before[i]);
    }
    assert(all[before.len() as int] == s[0]);
    lemma_until(all, |c: char| !white(c), before.len());
    let tail = trim_start(all);
    assert(tail =~= s + after);
    assert forall|i: int| s.len() <= i < tail.len() implies white(#[trigger] tail[i]) by {
        assert(tail[i] == after[i - s.len()]);
    }
    assert(tail[s.len() - 1] == s.last());
    lemma_trim_end(tail, |c: char| white(c), s.len());
    assert(tail.take(s.len() as int) =~= s);
}

/// A line is read as a directive, whatever white space stands around it, if it
/// holds `!tool`, a space, a name, white space and arguments: the name is the
/// stretch up to the white space, and the arguments are all that follows.
pub proof fn law_directives_name_a_tool_and_its_arguments(
    before: Seq<char>,
    name: Seq<char>,
    gap: Seq<char>,
    args: Seq<char>,
    after: Seq<char>,
)
    requires
        forall|i: int| 0 <= i < before.len() ==> white(#[trigger] before[i]),
        forall|i: int| 0 <= i < after.len() ==> white(#[trigger] after[i]),
        forall|i: int| 0 <= i < name.len() ==> !white(#[trigger] name[i]),
        forall|i: int| 0 <= i < gap.len() ==> white(#[trigger] gap[i]),
        gap.len() > 0,
        args.len() > 0,
        !white(args[0]),
        !white(args.last()),
    ensures
        directive(before + ("!tool "@ + name + gap + args) + after) == Some((name, args)),
{
    reveal_strlit("!tool ");
    let marker = "!tool "@;
    let line = marker + name + gap + args;
    assert(marker.len() == 6 && marker[0] == '!');
    assert(line[0] == '!');
    assert(line.last() == args.last());
    lemma_trim_strips(before, line, after);
    assert(marker =~= line.subrange(0, 6));
    let rest = line.skip(6);
    assert(rest =~= name + gap + args);
    assert forall|i: int| 0 <= i < name.len() implies !white(#[trigger] rest[i]) by {
        assert(rest[i] == name[i]);
    }
    assert(rest[name.len() as int] == gap[0]);
    lemma_until(rest, |c: char| white(c), name.len());
    assert(rest.take(name.len() as int) =~= name);
    let more = gap.skip(1);
    assert(rest.skip(name.len() as int + 1) =~= more + args + Seq::<char>::empty());
    assert forall|i: int| 0 <= i < more.len() implies white(#[trigger] more[i]) by {
        assert(more[i] == gap[i + 1]);
    }
    law_trimmed_text_stays(name);
    lemma_trim_strips(more, args, Seq::empty());
}

/// Without arguments a directive stands for a call with the empty object.
pub proof fn law_directives_may_do_without_arguments(
    before: Seq<char>,
    name: Seq<char>,
    after: Seq<char>,
)
    requires
        forall|i: int| 0 <= i < before.len() ==> white(#[trigger] before[i]),
        forall|i: int| 0 <= i < after.len() ==> white(#[trigger] after[i]),
        forall|i: int| 0 <= i < name.len() ==> !white(#[trigger] name[i]),
        name.len() > 0,
    ensures
        directive(before + ("!tool "@ + name) + after) == Some((name, "{}"@)),
{
    reveal_strlit("!tool ");
    let marker = "!tool "@;
    let line = marker + name;
    assert(marker.len() == 6 && marker[0] == '!');
    assert(line[0] == '!');
    assert(line.last() == name.last());
    lemma_trim_strips(before, line, after);
    assert(marker =~= line.subrange(0, 6));
    let rest = line.skip(6);
    assert(rest =~= name);
    lemma_until(rest, |c: char| white(c), name.len());
    law_trimmed_text_stays(name);
}

/// A line that does not begin with `!tool` and a space is no directive.
pub proof fn law_other_lines_are_no_directives(line: Seq<char>)
    ensures
        directive(line) is Some <==> "!tool "@.is_prefix_of(trim(line)),
{
}

/// Whether `at` lists the places of all directives, each once, in order.
pub open spec fn directive_places(all: Seq<Seq<char>>, at: Seq<int>) -> bool {
    places(all, |line: Seq<char>| directive(line) is Some, at)
}

/// Every line of a task that is a directive is read, once and in order, and no
/// other line is.
pub proof fn law_every_directive_is_read(all: Seq<Seq<char>>)
    ensures
        exists|at: Seq<int>|
            {
                &&& #[trigger] directive_places(all, at)
                &&& directives(all).len() == at.len()
                &&& forall|k: int|
                    0 <= k < at.len() ==> directive(all[#[trigger] at[k]]) == Some(
                        directives(all)[k],
                    )
            },
    decreases all.len(),
{
    let wanted = |line: Seq<char>| directive(line) is Some;
    if all.len() == 0 {
        let at: Seq<int> = seq![];
        assert(directive_places(all, at));
    } else {
        let rest = all.drop_last();
        law_every_directive_is_read(rest);
        let at = choose|at: Seq<int>|
            {
                &&& #[trigger] directive_places(rest, at)
                &&& directives(rest).len() == at.len()
                &&& forall|k: int|
                    0 <= k < at.len() ==> directive(rest[#[trigger] at[k]]) == Some(
                        directives(rest)[k],
                    )
            };
        lemma_places_push(all, wanted, at);
        let more = if directive(all.last()) is Some {
            at.push(all.len() - 1)
        } else {
            at
        };
        assert(directive_places(all, more));
        assert forall|k: int| 0 <= k < more.len() implies directive(all[#[trigger] more[k]]) == Some(
            directives(all)[k],
        ) by {
            if k < at.len() {
                assert(0 <= at[k] < rest.len());
                assert(rest[at[k]] == all[more[k]]);
            }
        }
    }
}

/// The calls that a task asks for are those of its directives, one for each line
/// of it that is one, with the value that the arguments spell, or with the empty
/// object if they spell none.
pub proof fn law_a_task_asks_for_its_directives(task: Seq<char>)
    ensures
        requested_calls(task).len() == directives(lines(task)).len(),
        forall|k: int|
            0 <= k < requested_calls(task).len() ==> {
                let found = directives(lines(task))[k];
                &&& (#[trigger] requested_calls(task)[k]).0 == found.0
                &&& requested_calls(task)[k].1 == match json_of(found.1) {
                    Some(tree) => tree,
                    None => JsonTree::Object(Map::empty()),
                }
            },
        input_of(None) == JsonTree::Object(Map::empty()),
{
}

/// The heading of a text is its first line, trimmed, and nothing if it has none.
pub proof fn law_a_heading_is_the_first_line(s: Seq<char>)
    ensures
        lines(s).len() == 0 ==> heading(s).len() == 0,
        lines(s).len() > 0 ==> heading(s) == trim(lines(s)[0]),
{
}

// ---------------------------------------------------------------------------
// What a conversation holds
// ---------------------------------------------------------------------------

/// Whether `at` lists the places of all tool results, each once, in order.
pub open spec fn result_places(content: Seq<ContentView>, at: Seq<int>) -> bool {
    places(content, |block: ContentView| block is ToolResult, at)
}

/// The results of a message are those of its tool-result blocks: each of them,
/// whole, once and in order.
pub proof fn law_every_tool_result_is_read(content: Seq<ContentView>)
    ensures
        exists|at: Seq<int>|
            {
                &&& #[trigger] result_places(content, at)
                &&& block_results(content).len() == at.len()
                &&& forall|k: int|
                    0 <= k < at.len() ==> content[#[trigger] at[k]]->ToolResult_content
                        == block_results(content)[k]
            },
    decreases content.len(),
{
    let wanted = |block: ContentView| block is ToolResult;
    if content.len() == 0 {
        let at: Seq<int> = seq![];
        assert(result_places(content, at));
    } else {
        let rest = content.drop_last();
        law_every_tool_result_is_read(rest);
        let at = choose|at: Seq<int>|
            {
                &&& #[trigger] result_places(rest, at)
                &&& block_results(rest).len() == at.len()
                &&& forall|k: int|
                    0 <= k < at.len() ==> rest[#[trigger] at[k]]->ToolResult_content
                        == block_results(rest)[k]
            };
        lemma_places_push(content, wanted, at);
        let all = if content.last() is ToolResult {
            at.push(content.len() - 1)
        } else {
            at
        };
        assert(result_places(content, all));
        assert forall|k: int| 0 <= k < all.len() implies content[#[trigger] all[k]]->ToolResult_content
            == block_results(content)[k] by {
            if k < at.len() {
                assert(0 <= at[k] < rest.len());
                assert(rest[at[k]] == content[all[k]]);
            }
        }
    }
}

/// A conversation holds the texts and the results of its messages, one message
/// after the other; its task is all of its texts, one to a line.
pub proof fn law_a_conversation_holds_what_its_messages_hold(
    messages: Seq<MessageView>,
    message: MessageView,
)
    ensures
        all_texts(Seq::empty()).len() == 0,
        all_results(Seq::empty()).len() == 0,
        all_texts(messages.push(message)) == all_texts(messages) + crate::abi::block_texts(
            message.content,
        ),
        all_results(messages.push(message)) == all_results(messages) + block_results(
            message.content,
        ),
        task_of(messages) == join(all_texts(messages), "\n"@),
{
    assert(messages.push(message).drop_last() =~= messages);
}

// ---------------------------------------------------------------------------
// Answers
// ---------------------------------------------------------------------------

/// A tool is offered exactly if one of the tools has its name.
pub proof fn law_tools_are_offered_by_name(tools: Seq<ToolSpecView>, name: Seq<char>)
    ensures
        offered(tools, name) <==> exists|i: int|
            0 <= i < tools.len() && (#[trigger] tools[i]).name == name,
{
}

/// Whether `at` lists the places of all calls of offered tools, each once, in
/// order.
pub open spec fn offered_places(
    tools: Seq<ToolSpecView>,
    calls: Seq<(Seq<char>, JsonTree)>,
    at: Seq<int>,
) -> bool {
    places(calls, |call: (Seq<char>, JsonTree)| offered(tools, call.0), at)
}

/// The stand-in makes every call that was asked for and whose tool is offered,
/// once and in order, with its input, and numbers them.
pub proof fn law_every_offered_call_is_made(
    tools: Seq<ToolSpecView>,
    calls: Seq<(Seq<char>, JsonTree)>,
)
    ensures
        exists|at: Seq<int>|
            {
                &&& #[trigger] offered_places(tools, calls, at)
                &&& mock_calls(tools, calls).len() == at.len()
                &&& forall|k: int|
                    0 <= k < at.len() ==> mock_calls(tools, calls)[k] == (ContentView::ToolUse {
                        id: "toolu_mock_"@ + decimal(k as nat),
                        name: calls[#[trigger] at[k]].0,
                        input: calls[at[k]].1,
                    })
            },
    decreases calls.len(),
{
    let wanted = |call: (Seq<char>, JsonTree)| offered(tools, call.0);
    if calls.len() == 0 {
        let at: Seq<int> = seq![];
        assert(offered_places(tools, calls, at));
    } else {
        let rest = calls.drop_last();
        law_every_offered_call_is_made(tools, rest);
        let at = choose|at: Seq<int>|
            {
                &&& #[trigger] offered_places(tools, rest, at)
                &&& mock_calls(tools, rest).len() == at.len()
                &&& forall|k: int|
                    0 <= k < at.len() ==> mock_calls(tools, rest)[k] == (ContentView::ToolUse {
                        id: "toolu_mock_"@ + decimal(k as nat),
                        name: rest[#[trigger] at[k]].0,
                        input: rest[at[k]].1,
                    })
            };
        lemma_places_push(calls, wanted, at);
        let all = if offered(tools, calls.last().0) {
            at.push(calls.len() - 1)
        } else {
            at
        };
        assert(offered_places(tools, calls, all));
        assert forall|k: int| 0 <= k < all.len() implies mock_calls(tools, calls)[k] == (
        ContentView::ToolUse {
            id: "toolu_mock_"@ + decimal(k as nat),
            name: calls[#[trigger] all[k]].0,
            input: calls[all[k]].1,
        }) by {
            if k < at.len() {
                assert(0 <= at[k] < rest.len());
                assert(rest[at[k]] == calls[all[k]]);
            }
        }
    }
}

/// How the stand-in answers: with the calls, if no result is there and there is
/// a call to make; with all results, if there are any; and else with the first
/// line of the task.
pub proof fn law_the_stand_in_calls_and_then_answers(
    request: LlmRequestView,
    calls: Seq<(Seq<char>, JsonTree)>,
)
    ensures
        ({
            let results = all_results(request.messages);
            let uses = mock_calls(request.tools, calls);
            let turn = mock_turn_of(request, calls);
            if results.len() == 0 && uses.len() > 0 {
                turn == (LlmResponseView {
                    stop_reason: "tool_use"@,
                    content: uses,
                    usage: Usage { input_tokens: 100, output_tokens: 20 },
                })
            } else {
                turn == (LlmResponseView {
                    stop_reason: "end_turn"@,
                    content: seq![
                        ContentView::Text {
                            text: if results.len() == 0 {
                                "[mock] No tools were needed. Task was: "@ + heading(
                                    task_of(request.messages),
                                )
                            } else {
                                "[mock] Tool results: "@ + join(results, " | "@)
                            },
                        },
                    ],
                    usage: Usage { input_tokens: 120, output_tokens: 30 },
                })
            }
        }),
{
}

} // verus!
