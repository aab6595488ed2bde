//! How the conversation with a model is written as JSON.

use vstd::prelude::*;

use crate::abi::{
    blocks, message_views, tool_views, Content, ContentView, KnownContent, Message, MessageView, Role, ToolSpec,
    ToolSpecView,
};
use crate::json::{
    json_array, json_bool, json_object, json_string, json_tree, member, member_tree, members_of, no_members, put,
    string_member, text_member, trees, JsonTree,
};
use crate::text::same;

verus! {

// ---------------------------------------------------------------------------
// Blocks
// ---------------------------------------------------------------------------

/// A block as JSON, in the shape of the Messages API.
pub open spec fn content_tree(block: ContentView) -> JsonTree {
    match block {
        ContentView::Text { text } => JsonTree::Object(
            map!["type"@ => JsonTree::Text("text"@), "text"@ => JsonTree::Text(text)],
        ),
        ContentView::Thinking { thinking, signature } => {
            let required = map![
                "type"@ => JsonTree::Text("thinking"@),
                "thinking"@ => JsonTree::Text(thinking),
            ];
            JsonTree::Object(
                match signature {
                    Some(signature) => required.insert("signature"@, JsonTree::Text(signature)),
                    None => required,
                },
            )
        },
        ContentView::RedactedThinking { data } => JsonTree::Object(
            map!["type"@ => JsonTree::Text("redacted_thinking"@), "data"@ => JsonTree::Text(data)],
        ),
        ContentView::ToolUse { id, name, input } => JsonTree::Object(
            map![
                "type"@ => JsonTree::Text("tool_use"@),
                "id"@ => JsonTree::Text(id),
                "name"@ => JsonTree::Text(name),
                "input"@ => input,
            ],
        ),
        ContentView::ToolResult { tool_use_id, content, is_error } => {
            let required = map![
                "type"@ => JsonTree::Text("tool_result"@),
                "tool_use_id"@ => JsonTree::Text(tool_use_id),
                "content"@ => JsonTree::Text(content),
            ];
            JsonTree::Object(
                if is_error {
                    required.insert("is_error"@, JsonTree::Bool(true))
                } else {
                    required
                },
            )
        },
        ContentView::Raw { value } => value,
    }
}

/// The members of a block under way, with its type.
fn typed(kind: &str) -> (members: serde_json::Map<String, serde_json::Value>)
    ensures
        members_of(members) == map!["type"@ => JsonTree::Text(kind@)],
{
    let mut members = no_members();
    put(&mut members, "type", json_string(kind));
    proof {
        assert(members_of(members) =~= map!["type"@ => JsonTree::Text(kind@)]);
    }
    members
}

/// A block as JSON.
pub fn content_json(block: &Content) -> (value: serde_json::Value)
    ensures
        json_tree(value) == content_tree(block@),
{
    match block {
        Content::Known(KnownContent::Text { text }) => {
            let mut members = typed("text");
            put(&mut members, "text", json_string(text.as_str()));
            json_object(members)
        },
        Content::Known(KnownContent::Thinking { thinking, signature }) => {
            let mut members = typed("thinking");
            put(&mut members, "thinking", json_string(thinking.as_str()));
            if let Some(signature) = signature {
                put(&mut members, "signature", json_string(signature.as_str()));
            }
            json_object(members)
        },
        Content::Known(KnownContent::RedactedThinking { data }) => {
            let mut members = typed("redacted_thinking");
            put(&mut members, "data", json_string(data.as_str()));
            json_object(members)
        },
        Content::Known(KnownContent::ToolUse { id, name, input }) => {
            let mut members = typed("tool_use");
            put(&mut members, "id", json_string(id.as_str()));
            put(&mut members, "name", json_string(name.as_str()));
            put(&mut members, "input", input.clone());
            json_object(members)
        },
        Content::Known(KnownContent::ToolResult { tool_use_id, content, is_error }) => {
            let mut members = typed("tool_result");
            put(&mut members, "tool_use_id", json_string(tool_use_id.as_str()));
            put(&mut members, "content", json_string(content.as_str()));
            if *is_error {
                put(&mut members, "is_error", json_bool(true));
            }
            json_object(members)
        },
        Content::Raw(value) => value.clone(),
    }
}

/// The member of an object that may be missing or `null`, and else is a string.
/// Nothing if it is anything else.
pub open spec fn optional_text(tree: JsonTree, field: Seq<char>) -> Option<Option<Seq<char>>> {
    match member_tree(tree, field) {
        None => Some(None),
        Some(JsonTree::Null) => Some(None),
        Some(JsonTree::Text(text)) => Some(Some(text)),
        Some(_) => None,
    }
}

/// The member of an object that may be missing, and else is a boolean. Nothing
/// if it is anything else.
pub open spec fn optional_flag(tree: JsonTree, field: Seq<char>) -> Option<bool> {
    match member_tree(tree, field) {
        None => Some(false),
        Some(JsonTree::Bool(flag)) => Some(flag),
        Some(_) => None,
    }
}

/// The block of a known type that a JSON value spells, if it spells one: its
/// type is known, and its members are there and of their types. Further members
/// do not count.
pub open spec fn known_block(tree: JsonTree) -> Option<ContentView> {
    match text_member(tree, "type"@) {
        None => None,
        Some(kind) => if kind == "text"@ {
            match text_member(tree, "text"@) {
                Some(text) => Some(ContentView::Text { text }),
                None => None,
            }
        } else if kind == "thinking"@ {
            match (text_member(tree, "thinking"@), optional_text(tree, "signature"@)) {
                (Some(thinking), Some(signature)) => Some(
                    ContentView::Thinking { thinking, signature },
                ),
                _ => None,
            }
        } else if kind == "redacted_thinking"@ {
            match text_member(tree, "data"@) {
                Some(data) => Some(ContentView::RedactedThinking { data }),
                None => None,
            }
        } else if kind == "tool_use"@ {
            match (
                text_member(tree, "id"@),
                text_member(tree, "name"@),
                member_tree(tree, "input"@),
            ) {
                (Some(id), Some(name), Some(input)) => Some(
                    ContentView::ToolUse { id, name, input },
                ),
                _ => None,
            }
        } else if kind == "tool_result"@ {
            match (
                text_member(tree, "tool_use_id"@),
                text_member(tree, "content"@),
                optional_flag(tree, "is_error"@),
            ) {
                (Some(tool_use_id), Some(content), Some(is_error)) => Some(
                    ContentView::ToolResult { tool_use_id, content, is_error },
                ),
                _ => None,
            }
        } else {
            None
        },
    }
}

/// The block that a JSON value spells. One that this library does not know is
/// carried as it is.
pub open spec fn block_of(tree: JsonTree) -> ContentView {
    match known_block(tree) {
        Some(block) => block,
        None => ContentView::Raw { value: tree },
    }
}

/// The block of a known type that a JSON value spells, if it spells one.
fn known_content(value: &serde_json::Value) -> (known: Option<KnownContent>)
    ensures
        match known {
            Some(known) => known_block(json_tree(*value)) == Some(Content::Known(known)@),
            None => known_block(json_tree(*value)) is None,
        },
{
    let kind = match string_member(value, "type") {
        Some(kind) => kind,
        None => {
            return None;
        },
    };
    let kind = kind.as_str();
    if same(kind, "text") {
        match string_member(value, "text") {
            Some(text) => Some(KnownContent::Text { text }),
            None => None,
        }
    } else if same(kind, "thinking") {
        let thinking = match string_member(value, "thinking") {
            Some(thinking) => thinking,
            None => {
                return None;
            },
        };
        match member(value, "signature") {
            None => Some(KnownContent::Thinking { thinking, signature: None }),
            Some(found) => if found.is_null() {
                Some(KnownContent::Thinking { thinking, signature: None })
            } else {
                match found.as_str() {
                    Some(text) => Some(
                        KnownContent::Thinking { thinking, signature: Some(text.to_string()) },
                    ),
                    None => None,
                }
            },
        }
    } else if same(kind, "redacted_thinking") {
        match string_member(value, "data") {
            Some(data) => Some(KnownContent::RedactedThinking { data }),
            None => None,
        }
    } else if same(kind, "tool_use") {
        match (string_member(value, "id"), string_member(value, "name"), member(value, "input")) {
            (Some(id), Some(name), Some(input)) => Some(
                KnownContent::ToolUse { id, name, input: input.clone() },
            ),
            _ => None,
        }
    } else if same(kind, "tool_result") {
        let is_error: Option<bool> = match member(value, "is_error") {
            None => Some(false),
            Some(found) => found.as_bool(),
        };
        match (string_member(value, "tool_use_id"), string_member(value, "content"), is_error) {
            (Some(tool_use_id), Some(content), Some(is_error)) => Some(
                KnownContent::ToolResult { tool_use_id, content, is_error },
            ),
            _ => None,
        }
    } else {
        None
    }
}

/// The block that a JSON value spells.
pub fn content_of_json(value: serde_json::Value) -> (block: Content)
    ensures
        block@ == block_of(json_tree(value)),
{
    match known_content(&value) {
        Some(known) => Content::Known(known),
        None => Content::Raw(value),
    }
}

/// The types and the members of blocks have different names.
pub(crate) proof fn lemma_block_names()
    ensures
        "text"@ != "thinking"@,
        "text"@ != "redacted_thinking"@,
        "text"@ != "tool_use"@,
        "text"@ != "tool_result"@,
        "thinking"@ != "redacted_thinking"@,
        "thinking"@ != "tool_use"@,
        "thinking"@ != "tool_result"@,
        "redacted_thinking"@ != "tool_use"@,
        "redacted_thinking"@ != "tool_result"@,
        "tool_use"@ != "tool_result"@,
        "type"@ != "text"@,
        "type"@ != "thinking"@,
        "type"@ != "signature"@,
        "type"@ != "data"@,
        "type"@ != "id"@,
        "type"@ != "name"@,
        "type"@ != "input"@,
        "type"@ != "tool_use_id"@,
        "type"@ != "content"@,
        "type"@ != "is_error"@,
        "thinking"@ != "signature"@,
        "id"@ != "name"@,
        "id"@ != "input"@,
        "name"@ != "input"@,
        "tool_use_id"@ != "content"@,
        "tool_use_id"@ != "is_error"@,
        "content"@ != "is_error"@,
{
    reveal_strlit("text");
    reveal_strlit("thinking");
    reveal_strlit("redacted_thinking");
    reveal_strlit("tool_use");
    reveal_strlit("tool_result");
    reveal_strlit("type");
    reveal_strlit("signature");
    reveal_strlit("data");
    reveal_strlit("id");
    reveal_strlit("name");
    reveal_strlit("input");
    reveal_strlit("tool_use_id");
    reveal_strlit("content");
    reveal_strlit("is_error");
    assert("text"@.len() == 4 && "text"@[1] == 'e');
    assert("type"@.len() == 4 && "type"@[0] == 't' && "type"@[1] == 'y');
    assert("data"@.len() == 4 && "data"@[0] == 'd');
    assert("name"@.len() == 4 && "name"@[0] == 'n');
    assert("id"@.len() == 2);
    assert("input"@.len() == 5);
    assert("content"@.len() == 7);
    assert("thinking"@.len() == 8 && "thinking"@[1] == 'h');
    assert("tool_use"@.len() == 8 && "tool_use"@[1] == 'o');
    assert("is_error"@.len() == 8);
    assert("signature"@.len() == 9);
    assert("tool_result"@.len() == 11 && "tool_result"@[5] == 'r');
    assert("tool_use_id"@.len() == 11);
    assert("redacted_thinking"@.len() == 17);
}

/// A block of a type that this library does not know comes back out as it came
/// in, so that additions to the API cannot break the replay.
pub proof fn law_unknown_blocks_survive(tree: JsonTree)
    requires
        known_block(tree) is None,
    ensures
        block_of(tree) == (ContentView::Raw { value: tree }),
        content_tree(block_of(tree)) == tree,
{
}

/// A block of a known type is read back as it was written; with it a thinking
/// block keeps its signature.
pub proof fn law_known_blocks_survive(block: ContentView)
    requires
        !(block is Raw),
    ensures
        known_block(content_tree(block)) == Some(block),
        block_of(content_tree(block)) == block,
{
    lemma_block_names();
}

/// What was read and written once stays as it is: to read and write it again
/// changes nothing.
pub proof fn law_replay_is_stable(tree: JsonTree)
    ensures
        block_of(content_tree(block_of(tree))) == block_of(tree),
        content_tree(block_of(content_tree(block_of(tree)))) == content_tree(block_of(tree)),
{
    if known_block(tree) is Some {
        law_known_blocks_survive(block_of(tree));
    }
}

/// A thinking block with its signature comes back out as it came in.
pub proof fn law_signatures_survive(thinking: Seq<char>, signature: Seq<char>)
    ensures
        ({
            let tree = JsonTree::Object(
                map![
                    "type"@ => JsonTree::Text("thinking"@),
                    "thinking"@ => JsonTree::Text(thinking),
                    "signature"@ => JsonTree::Text(signature),
                ],
            );
            &&& block_of(tree) == (ContentView::Thinking { thinking, signature: Some(signature) })
            &&& content_tree(block_of(tree)) == tree
        }),
{
    lemma_block_names();
    law_known_blocks_survive(ContentView::Thinking { thinking, signature: Some(signature) });
}

// ---------------------------------------------------------------------------
// Messages and tools
// ---------------------------------------------------------------------------

impl Role {
    /// The role's name.
    pub open spec fn label(self) -> Seq<char> {
        match self {
            Role::User => "user"@,
            Role::Assistant => "assistant"@,
        }
    }

    /// The role's name.
    pub fn as_str(self) -> (name: &'static str)
        ensures
            name@ == self.label(),
    {
        match self {
            Role::User => "user",
            Role::Assistant => "assistant",
        }
    }
}

/// Each block as JSON.
pub open spec fn content_trees(content: Seq<ContentView>) -> Seq<JsonTree> {
    content.map_values(|block: ContentView| content_tree(block))
}

/// A message as JSON.
pub open spec fn message_tree(message: MessageView) -> JsonTree {
    JsonTree::Object(
        map![
            "role"@ => JsonTree::Text(message.role.label()),
            "content"@ => JsonTree::List(content_trees(message.content)),
        ],
    )
}

/// Each message as JSON.
pub open spec fn message_trees(messages: Seq<MessageView>) -> Seq<JsonTree> {
    messages.map_values(|message: MessageView| message_tree(message))
}

/// A tool as JSON.
pub open spec fn tool_tree(tool: ToolSpecView) -> JsonTree {
    JsonTree::Object(
        map![
            "name"@ => JsonTree::Text(tool.name),
            "description"@ => JsonTree::Text(tool.description),
            "input_schema"@ => tool.input_schema,
        ],
    )
}

/// Each tool as JSON.
pub open spec fn tool_trees(tools: Seq<ToolSpecView>) -> Seq<JsonTree> {
    tools.map_values(|tool: ToolSpecView| tool_tree(tool))
}

/// A message as JSON.
pub fn message_json(message: &Message) -> (value: serde_json::Value)
    ensures
        json_tree(value) == message_tree(message@),
{
    let mut content: Vec<serde_json::Value> = Vec::new();
    let ghost expected = content_trees(blocks(message.content@));
    let mut i: usize = 0;
    while i < message.content.len()
        invariant
            i <= message.content.len(),
            expected == content_trees(blocks(message.content@)),
            trees(content@) =~= expected.take(i as int),
        decreases message.content.len() - i,
    {
        let ghost before = content@;
        let value = content_json(&message.content[i]);
        content.push(value);
        proof {
            assert(trees(content@) =~= trees(before).push(json_tree(value)));
            assert(expected[i as int] == json_tree(value));
        }
        i = i + 1;
    }
    proof {
        assert(trees(content@) =~= expected);
    }
    let mut members = no_members();
    put(&mut members, "role", json_string(message.role.as_str()));
    put(&mut members, "content", json_array(content));
    json_object(members)
}

/// Messages as JSON.
pub fn messages_json(messages: &Vec<Message>) -> (value: serde_json::Value)
    ensures
        json_tree(value) == JsonTree::List(message_trees(message_views(messages@))),
{
    let mut items: Vec<serde_json::Value> = Vec::new();
    let ghost expected = message_trees(message_views(messages@));
    let mut i: usize = 0;
    while i < messages.len()
        invariant
            i <= messages.len(),
            expected == message_trees(message_views(messages@)),
            trees(items@) =~= expected.take(i as int),
        decreases messages.len() - i,
    {
        let ghost before = items@;
        let value = message_json(&messages[i]);
        items.push(value);
        proof {
            assert(trees(items@) =~= trees(before).push(json_tree(value)));
            assert(expected[i as int] == json_tree(value));
        }
        i = i + 1;
    }
    proof {
        assert(trees(items@) =~= expected);
    }
    json_array(items)
}

/// Tools as JSON.
pub fn tools_json(tools: &Vec<ToolSpec>) -> (value: serde_json::Value)
    ensures
        json_tree(value) == JsonTree::List(tool_trees(tool_views(tools@))),
{
    let mut items: Vec<serde_json::Value> = Vec::new();
    let ghost expected = tool_trees(tool_views(tools@));
    let mut i: usize = 0;
    while i < tools.len()
        invariant
            i <= tools.len(),
            expected == tool_trees(tool_views(tools@)),
            trees(items@) =~= expected.take(i as int),
        decreases tools.len() - i,
    {
        let ghost before = items@;
        let mut members = no_members();
        put(&mut members, "name", json_string(tools[i].name.as_str()));
        put(&mut members, "description", json_string(tools[i].description.as_str()));
        put(&mut members, "input_schema", tools[i].input_schema.clone());
        let value = json_object(members);
        items.push(value);
        proof {
            assert(trees(items@) =~= trees(before).push(json_tree(value)));
            assert(expected[i as int] == tool_tree(tools[i as int]@));
        }
        i = i + 1;
    }
    proof {
        assert(trees(items@) =~= expected);
    }
    json_array(items)
}

} // verus!
