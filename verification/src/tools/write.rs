//! The `write_to_file` tool: its definition, and how the file is opened.

use vstd::prelude::*;

use crate::tools::{defines_sig, property_sig, Property, ToolDefinition, ToolSignature};

verus! {

/// How the file is opened for writing.
#[derive(Debug, Clone, Copy, PartialEq, Eq, Structural)]
pub enum WriteMode {
    /// Create the file, or empty an existing one first.
    CreateOrTruncate,
    /// Create the file; an existing file is an error and stays as it was.
    CreateNew,
}

/// Only an explicit overwrite may replace an existing file.
pub fn write_mode(overwrite: bool) -> (m: WriteMode)
    ensures
        m == (if overwrite { WriteMode::CreateOrTruncate } else { WriteMode::CreateNew }),
{
    if overwrite {
        WriteMode::CreateOrTruncate
    } else {
        WriteMode::CreateNew
    }
}

/// What the `write_to_file` tool's definition says: name, description, parameters
/// and the required ones.
pub open spec fn write_to_file_signature() -> ToolSignature {
    ToolSignature {
        name: "write_to_file"@,
        description: "Creates or writes contents to an existing file"@,
        props: seq![
            ("path"@, "string"@, "Provide a file path to write to"@, None, None),
            ("content"@, "string"@, "Provide the content to write"@, None, None),
            ("overwrite"@, "boolean"@, "Define whether to overwrite an existing file or not"@, None, None),
        ],
        required: seq!["path"@, "content"@, "overwrite"@],
    }
}

/// The definition of the `write_to_file` tool.
pub fn def_write_to_file() -> (d: ToolDefinition)
    ensures
        defines_sig(d, write_to_file_signature()),
{
    let name = String::from_str("write_to_file");
    let description = String::from_str("Creates or writes contents to an existing file");
    let p0 = Property {
        kind: String::from_str("string"),
        description: String::from_str("Provide a file path to write to"),
        items: None,
        property_enum: None,
    };
    let p1 = Property {
        kind: String::from_str("string"),
        description: String::from_str("Provide the content to write"),
        items: None,
        property_enum: None,
    };
    let p2 = Property {
        kind: String::from_str("boolean"),
        description: String::from_str("Define whether to overwrite an existing file or not"),
        items: None,
        property_enum: None,
    };
    let properties = vec![(String::from_str("path"), p0), (String::from_str("content"), p1), (String::from_str("overwrite"), p2)];
    let required = vec![String::from_str("path"), String::from_str("content"), String::from_str("overwrite")];
    proof {
        reveal_strlit("path");
        reveal_strlit("content");
        reveal_strlit("overwrite");
        assert(properties@[0].0@ == "path"@);
        assert(properties@[1].0@ == "content"@);
        assert(properties@[2].0@ == "overwrite"@);
        assert(properties@[0].0@.len() != properties@[1].0@.len());
        assert(properties@[0].0@.len() != properties@[2].0@.len());
        assert(properties@[1].0@.len() != properties@[2].0@.len());
        assert forall|i: int, j: int|
            0 <= i < 3 && 0 <= j < 3 && i != j implies #[trigger] properties@[i].0@ != #[trigger] properties@[j].0@ by {}
    }
    assert(properties@.map_values(|q: (String, Property)| property_sig(q)) =~= seq![
        ("path"@, "string"@, "Provide a file path to write to"@, None, None),
        ("content"@, "string"@, "Provide the content to write"@, None, None),
        ("overwrite"@, "boolean"@, "Define whether to overwrite an existing file or not"@, None, None),
    ]);
    assert(required@.map_values(|s: String| s@) =~= seq!["path"@, "content"@, "overwrite"@]);
    ToolDefinition::new(name, description, true, properties, Some(required))
}

} // verus!
