//! The `create_todo_list` tool: its definition, and where the list is kept.

use vstd::prelude::*;

use crate::tools::{defines_sig, property_sig, Property, ToolDefinition, ToolSignature};

verus! {

/// The file, under the working directory's `.mimi`, that holds a session's todo list.
pub fn todo_file_name(session_id: &str) -> (s: String)
    ensures
        s@ == "todo_"@ + session_id@ + ".md"@,
{
    String::from_str("todo_").concat(session_id).concat(".md")
}

/// What the `create_todo_list` tool's definition says: name, description, parameters
/// and the required ones.
pub open spec fn create_todo_list_signature() -> ToolSignature {
    ToolSignature {
        name: "create_todo_list"@,
        description: "Create a markdown todo list for the current session. Use for multi-step tasks to track progress."@,
        props: seq![
            ("contents"@, "string"@, "Markdown todo list contents (e.g. checklist items with - [ ] / - [x] status)"@, None, None),
        ],
        required: seq!["contents"@],
    }
}

/// The definition of the `create_todo_list` tool.
pub fn def_create_todo_list() -> (d: ToolDefinition)
    ensures
        defines_sig(d, create_todo_list_signature()),
{
    let name = String::from_str("create_todo_list");
    let description = String::from_str("Create a markdown todo list for the current session. Use for multi-step tasks to track progress.");
    let p0 = Property {
        kind: String::from_str("string"),
        description: String::from_str("Markdown todo list contents (e.g. checklist items with - [ ] / - [x] status)"),
        items: None,
        property_enum: None,
    };
    let properties = vec![(String::from_str("contents"), p0)];
    let required = vec![String::from_str("contents")];
    proof {
        reveal_strlit("contents");
        assert(properties@[0].0@ == "contents"@);
    }
    assert(properties@.map_values(|q: (String, Property)| property_sig(q)) =~= seq![
        ("contents"@, "string"@, "Markdown todo list contents (e.g. checklist items with - [ ] / - [x] status)"@, None, None),
    ]);
    assert(required@.map_values(|s: String| s@) =~= seq!["contents"@]);
    ToolDefinition::new(name, description, true, properties, Some(required))
}

} // verus!
