//! What is on the wire to a model, in terms of the conversation and the
//! configuration.

use vstd::prelude::*;

use crate::abi::{ContentView, LlmRequestView, Role};
use crate::json::{member_tree, text_member, JsonTree};
use crate::llm::body_of;
use crate::policy::{Effort, LlmConfig, Thinking};
use crate::text::decimal;
use crate::wire::{block_of, content_tree};

verus! {

// ---------------------------------------------------------------------------
// Members of objects
// ---------------------------------------------------------------------------

/// A member is found in an object exactly if the object has it; nothing but an
/// object has members.
pub proof fn law_members_are_found(tree: JsonTree, field: Seq<char>)
    ensures
        tree matches JsonTree::Object(members) ==> {
            &&& member_tree(tree, field) is Some <==> members.contains_key(field)
            &&& members.contains_key(field) ==> member_tree(tree, field) == Some(members[field])
        },
        !(tree is Object) ==> member_tree(tree, field) is None,
        text_member(tree, field) matches Some(text) ==> member_tree(tree, field) == Some(
            JsonTree::Text(text),
        ),
        member_tree(tree, field) matches Some(JsonTree::Text(text)) ==> text_member(tree, field)
            == Some(text),
{
}

// ---------------------------------------------------------------------------
// Blocks
// ---------------------------------------------------------------------------

/// Every block is written with its type and each of its parts, and with nothing
/// else. A signature that is missing and a flag that is not set are left out; a
/// block of an unknown type is written as it is.
pub proof fn law_blocks_are_written_in_full(block: ContentView)
    ensures
        match block {
            ContentView::Text { text } => content_tree(block) == JsonTree::Object(
                map!["type"@ => JsonTree::Text("text"@), "text"@ => JsonTree::Text(text)],
            ),
            ContentView::Thinking { thinking, signature: None } => content_tree(block)
                == JsonTree::Object(
                map![
                    "type"@ => JsonTree::Text("thinking"@),
                    "thinking"@ => JsonTree::Text(thinking),
                ],
            ),
            ContentView::Thinking { thinking, signature: Some(signature) } => content_tree(block)
                == JsonTree::Object(
                map![
                    "type"@ => JsonTree::Text("thinking"@),
                    "thinking"@ => JsonTree::Text(thinking),
                    "signature"@ => JsonTree::Text(signature),
                ],
            ),
            ContentView::RedactedThinking { data } => content_tree(block) == JsonTree::Object(
                map![
                    "type"@ => JsonTree::Text("redacted_thinking"@),
                    "data"@ => JsonTree::Text(data),
                ],
            ),
            ContentView::ToolUse { id, name, input } => content_tree(block) == JsonTree::Object(
                map![
                    "type"@ => JsonTree::Text("tool_use"@),
                    "id"@ => JsonTree::Text(id),
                    "name"@ => JsonTree::Text(name),
                    "input"@ => input,
                ],
            ),
            ContentView::ToolResult { tool_use_id, content, is_error: false } => content_tree(block)
                == JsonTree::Object(
                map![
                    "type"@ => JsonTree::Text("tool_result"@),
                    "tool_use_id"@ => JsonTree::Text(tool_use_id),
                    "content"@ => JsonTree::Text(content),
                ],
            ),
            ContentView::ToolResult { tool_use_id, content, is_error: true } => content_tree(block)
                == JsonTree::Object(
                map![
                    "type"@ => JsonTree::Text("tool_result"@),
                    "tool_use_id"@ => JsonTree::Text(tool_use_id),
                    "content"@ => JsonTree::Text(content),
                    "is_error"@ => JsonTree::Bool(true),
                ],
            ),
            ContentView::Raw { value } => content_tree(block) == value,
        },
{
}

/// Different blocks of known types are written differently.
pub proof fn law_known_blocks_are_told_apart(block: ContentView, other: ContentView)
    requires
        !(block is Raw),
        !(other is Raw),
        content_tree(block) == content_tree(other),
    ensures
        block == other,
{
    crate::wire::law_known_blocks_survive(block);
    crate::wire::law_known_blocks_survive(other);
}

/// A block is read as one of a known type exactly if it names that type and has
/// the parts of it, each of its kind; whatever further members it has. What it
/// is read as has the very parts that it has.
pub proof fn law_blocks_are_read_by_their_type(members: Map<Seq<char>, JsonTree>)
    ensures
        ({
            let tree = JsonTree::Object(members);
            let kind = |name: Seq<char>|
                members.contains_key("type"@) && members["type"@] == JsonTree::Text(name);
            let text = |field: Seq<char>| members.contains_key(field) && members[field] is Text;
            let missing = |field: Seq<char>| !members.contains_key(field);
            &&& kind("text"@) && text("text"@) ==> block_of(tree) == (ContentView::Text {
                text: members["text"@]->Text_0,
            })
            &&& kind("thinking"@) && text("thinking"@) && text("signature"@) ==> block_of(tree) == (
            ContentView::Thinking {
                thinking: members["thinking"@]->Text_0,
                signature: Some(members["signature"@]->Text_0),
            })
            &&& kind("thinking"@) && text("thinking"@) && missing("signature"@) ==> block_of(tree)
                == (ContentView::Thinking {
                thinking: members["thinking"@]->Text_0,
                signature: None,
            })
            &&& kind("redacted_thinking"@) && text("data"@) ==> block_of(tree) == (
            ContentView::RedactedThinking { data: members["data"@]->Text_0 })
            &&& kind("tool_use"@) && text("id"@) && text("name"@) && !missing("input"@) ==> block_of(
                tree,
            ) == (ContentView::ToolUse {
                id: members["id"@]->Text_0,
                name: members["name"@]->Text_0,
                input: members["input"@],
            })
            &&& kind("tool_result"@) && text("tool_use_id"@) && text("content"@) && missing(
                "is_error"@,
            ) ==> block_of(tree) == (ContentView::ToolResult {
                tool_use_id: members["tool_use_id"@]->Text_0,
                content: members["content"@]->Text_0,
                is_error: false,
            })
            &&& kind("tool_result"@) && text("tool_use_id"@) && text("content"@) && !missing(
                "is_error"@,
            ) && members["is_error"@] is Bool ==> block_of(tree) == (ContentView::ToolResult {
                tool_use_id: members["tool_use_id"@]->Text_0,
                content: members["content"@]->Text_0,
                is_error: members["is_error"@]->Bool_0,
            })
            &&& !kind("text"@) && !kind("thinking"@) && !kind("redacted_thinking"@) && !kind(
                "tool_use"@,
            ) && !kind("tool_result"@) ==> block_of(tree) == (ContentView::Raw { value: tree })
        }),
{
    crate::wire::lemma_block_names();
}

/// What is no object is carried as it is.
pub proof fn law_other_values_are_carried(tree: JsonTree)
    requires
        !(tree is Object),
    ensures
        block_of(tree) == (ContentView::Raw { value: tree }),
{
}

/// A block that names a known type without having the parts of it is carried as
/// it is.
pub proof fn law_broken_blocks_are_carried(members: Map<Seq<char>, JsonTree>)
    ensures
        ({
            let tree = JsonTree::Object(members);
            let kind = |name: Seq<char>|
                members.contains_key("type"@) && members["type"@] == JsonTree::Text(name);
            let text = |field: Seq<char>| members.contains_key(field) && members[field] is Text;
            let raw = ContentView::Raw { value: tree };
            &&& kind("text"@) && !text("text"@) ==> block_of(tree) == raw
            &&& kind("thinking"@) && !text("thinking"@) ==> block_of(tree) == raw
            &&& kind("redacted_thinking"@) && !text("data"@) ==> block_of(tree) == raw
            &&& kind("tool_use"@) && (!text("id"@) || !text("name"@) || !members.contains_key(
                "input"@,
            )) ==> block_of(tree) == raw
            &&& kind("tool_result"@) && (!text("tool_use_id"@) || !text("content"@)) ==> block_of(
                tree,
            ) == raw
        }),
{
    crate::wire::lemma_block_names();
}

// ---------------------------------------------------------------------------
// Requests
// ---------------------------------------------------------------------------

/// The names of the members of a request differ.
proof fn lemma_body_names()
    ensures
        "model"@ != "max_tokens"@,
        "model"@ != "messages"@,
        "model"@ != "output_config"@,
        "model"@ != "thinking"@,
        "model"@ != "system"@,
        "model"@ != "tools"@,
        "model"@ != "fallbacks"@,
        "max_tokens"@ != "messages"@,
        "max_tokens"@ != "output_config"@,
        "max_tokens"@ != "thinking"@,
        "max_tokens"@ != "system"@,
        "max_tokens"@ != "tools"@,
        "max_tokens"@ != "fallbacks"@,
        "messages"@ != "output_config"@,
        "messages"@ != "thinking"@,
        "messages"@ != "system"@,
        "messages"@ != "tools"@,
        "messages"@ != "fallbacks"@,
        "output_config"@ != "thinking"@,
        "output_config"@ != "system"@,
        "output_config"@ != "tools"@,
        "output_config"@ != "fallbacks"@,
        "thinking"@ != "system"@,
        "thinking"@ != "tools"@,
        "thinking"@ != "fallbacks"@,
        "system"@ != "tools"@,
        "system"@ != "fallbacks"@,
        "tools"@ != "fallbacks"@,
        "role"@ != "content"@,
        "type"@ != "display"@,
        "name"@ != "description"@,
        "name"@ != "input_schema"@,
        "description"@ != "input_schema"@,
{
    reveal_strlit("model");
    reveal_strlit("max_tokens");
    reveal_strlit("messages");
    reveal_strlit("output_config");
    reveal_strlit("thinking");
    reveal_strlit("system");
    reveal_strlit("tools");
    reveal_strlit("fallbacks");
    reveal_strlit("role");
    reveal_strlit("content");
    reveal_strlit("type");
    reveal_strlit("display");
    reveal_strlit("name");
    reveal_strlit("description");
    reveal_strlit("input_schema");
    assert("model"@.len() == 5 && "model"@[0] == 'm');
    assert("max_tokens"@.len() == 10);
    assert("messages"@.len() == 8 && "messages"@[0] == 'm');
    assert("output_config"@.len() == 13);
    assert("thinking"@.len() == 8 && "thinking"@[0] == 't');
    assert("system"@.len() == 6);
    assert("tools"@.len() == 5 && "tools"@[0] == 't');
    assert("fallbacks"@.len() == 9);
    assert("role"@.len() == 4);
    assert("content"@.len() == 7);
    assert("type"@.len() == 4);
    assert("display"@.len() == 7);
    assert("name"@.len() == 4);
    assert("description"@.len() == 11);
    assert("input_schema"@.len() == 12);
}

/// The model reads the whole conversation: the request holds one message for
/// each message of it, in order, each with its role and with all of its blocks,
/// in order.
pub proof fn law_the_model_reads_the_whole_conversation(config: LlmConfig, request: LlmRequestView)
    ensures
        member_tree(body_of(config, request), "messages"@) matches Some(JsonTree::List(items)) && {
            &&& items.len() == request.messages.len()
            &&& forall|i: int|
                0 <= i < items.len() ==> {
                    let message = request.messages[i];
                    &&& #[trigger] items[i] is Object
                    &&& items[i]->Object_0.dom() == set!["role"@, "content"@]
                    &&& items[i]->Object_0["role"@] == JsonTree::Text(
                        match message.role {
                            Role::User => "user"@,
                            Role::Assistant => "assistant"@,
                        },
                    )
                    &&& items[i]->Object_0["content"@] is List
                    &&& items[i]->Object_0["content"@]->List_0.len() == message.content.len()
                    &&& forall|j: int|
                        0 <= j < message.content.len() ==> #[trigger] items[i]->Object_0["content"@]->List_0[j]
                            == content_tree(message.content[j])
                }
        },
{
    lemma_body_names();
    let items = member_tree(body_of(config, request), "messages"@)->Some_0->List_0;
    assert forall|i: int| 0 <= i < items.len() implies (#[trigger] items[i])->Object_0.dom() == set![
        "role"@,
        "content"@,
    ] by {
        assert(items[i]->Object_0.dom() =~= set!["role"@, "content"@]);
    }
}

/// The model reads of every tool that the request offers, in order, each with its
/// name, its description and the schema of its input; and of none if none is
/// offered.
pub proof fn law_the_model_reads_of_every_tool(config: LlmConfig, request: LlmRequestView)
    ensures
        request.tools.len() == 0 ==> member_tree(body_of(config, request), "tools"@) is None,
        request.tools.len() > 0 ==> {
            &&& member_tree(body_of(config, request), "tools"@) matches Some(JsonTree::List(items))
            &&& items.len() == request.tools.len()
            &&& forall|i: int|
                0 <= i < items.len() ==> {
                    &&& #[trigger] items[i] is Object
                    &&& items[i]->Object_0.dom() == set!["name"@, "description"@, "input_schema"@]
                    &&& items[i]->Object_0["name"@] == JsonTree::Text(request.tools[i].name)
                    &&& items[i]->Object_0["description"@] == JsonTree::Text(
                        request.tools[i].description,
                    )
                    &&& items[i]->Object_0["input_schema"@] == request.tools[i].input_schema
                }
        },
{
    lemma_body_names();
    if request.tools.len() > 0 {
        let items = member_tree(body_of(config, request), "tools"@)->Some_0->List_0;
        assert forall|i: int| 0 <= i < items.len() implies (#[trigger] items[i])->Object_0.dom()
            == set!["name"@, "description"@, "input_schema"@] by {
            assert(items[i]->Object_0.dom() =~= set!["name"@, "description"@, "input_schema"@]);
        }
    }
}

/// The rest of a request says what the configuration says: which model, how many
/// tokens, how much effort, how to think; the system prompt as it was given; and
/// whether to fall back on another model.
pub proof fn law_a_request_follows_the_configuration(config: LlmConfig, request: LlmRequestView)
    ensures
        ({
            let body = body_of(config, request);
            &&& member_tree(body, "model"@) == Some(JsonTree::Text(config.model@))
            &&& member_tree(body, "max_tokens"@) == Some(
                JsonTree::Number(decimal(config.max_tokens as nat)),
            )
            &&& member_tree(body, "output_config"@) == Some(
                JsonTree::Object(
                    map![
                        "effort"@ => JsonTree::Text(
                            match config.effort {
                                Effort::Low => "low"@,
                                Effort::Medium => "medium"@,
                                Effort::High => "high"@,
                                Effort::XHigh => "xhigh"@,
                                Effort::Max => "max"@,
                            },
                        ),
                    ],
                ),
            )
            &&& member_tree(body, "thinking"@) == Some(
                JsonTree::Object(
                    if config.thinking == Thinking::Disabled {
                        map!["type"@ => JsonTree::Text("disabled"@)]
                    } else if config.summarize_thinking {
                        map![
                            "type"@ => JsonTree::Text("adaptive"@),
                            "display"@ => JsonTree::Text("summarized"@),
                        ]
                    } else {
                        map!["type"@ => JsonTree::Text("adaptive"@)]
                    },
                ),
            )
            &&& request.system matches Some(system) ==> member_tree(body, "system"@) == Some(
                JsonTree::Text(system),
            )
            &&& request.system is None ==> member_tree(body, "system"@) is None
            &&& config.server_side_fallback ==> member_tree(body, "fallbacks"@) == Some(
                JsonTree::Text("default"@),
            )
            &&& !config.server_side_fallback ==> member_tree(body, "fallbacks"@) is None
        }),
{
    lemma_body_names();
}

} // verus!
