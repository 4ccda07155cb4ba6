//! The `shell` tool definition.

use vstd::prelude::*;

use crate::tools::arguments::{array_member, json_array_member, json_string_member, string_member};
use crate::tools::{defines_sig, property_sig, Property, ToolDefinition, ToolSignature};

verus! {

/// Every element of the list is a string.
pub open spec fn all_texts(items: Seq<Option<Seq<char>>>) -> bool {
    forall|i: int| 0 <= i < items.len() ==> (#[trigger] items[i]) is Some
}

/// The program and arguments that the JSON `arguments` of a `shell` call ask
/// to run: the string `command` and the array `arguments` of strings. A call
/// without a command, without an argument array, or with an argument that is
/// not a string is refused with the tool's message.
pub fn shell_invocation(arguments: &str) -> (r: Result<(String, Vec<String>), String>)
    ensures
        match json_string_member(arguments@, "command"@) {
            None => r matches Err(m) && m@ == "missing command to run"@,
            Some(command) => match json_array_member(arguments@, "arguments"@) {
                None => r matches Err(m) && m@ == "errrr"@,
                Some(items) => if all_texts(items) {
                    r matches Ok((c, args)) && c@ == command && args@.len() == items.len() && (
                    forall|i: int| 0 <= i < items.len() ==> items[i] == Some((#[trigger] args@[i])@))
                } else {
                    r matches Err(m) && m@ == "each argument must be a string"@
                },
            },
        },
{
    let command = match string_member(arguments, "command") {
        Some(c) => c,
        None => return Err(String::from_str("missing command to run")),
    };
    let items = match array_member(arguments, "arguments") {
        Some(v) => v,
        None => return Err(String::from_str("errrr")),
    };
    let ghost texts = json_array_member(arguments@, "arguments"@)->0;
    let mut args: Vec<String> = Vec::new();
    let mut i: usize = 0;
    while i < items.len()
        invariant
            i <= items@.len(),
            texts == crate::tools::arguments::texts_of(items@),
            json_string_member(arguments@, "command"@) == Some(command@),
            json_array_member(arguments@, "arguments"@) == Some(texts),
            args@.len() == i,
            forall|j: int| 0 <= j < i ==> texts[j] == Some((#[trigger] args@[j])@),
        decreases items.len() - i,
    {
        match &items[i] {
            Some(s) => args.push(s.clone()),
            None => {
                assert(!(texts[i as int] is Some));
                return Err(String::from_str("each argument must be a string"));
            },
        }
        i = i + 1;
    }
    assert(all_texts(texts)) by {
        assert forall|j: int| 0 <= j < texts.len() implies (#[trigger] texts[j]) is Some by {
            assert(texts[j] == Some(args@[j]@));
        }
    }
    Ok((command, args))
}

/// What the `shell` tool's definition says: name, description, parameters
/// and the required ones.
pub open spec fn shell_signature() -> ToolSignature {
    ToolSignature {
        name: "shell"@,
        description: "dasjkdjsakdjsa"@,
        props: seq![
            ("command"@, "string"@, "command to run"@, Some(seq!["sh"@, "zsh"@, "bash"@, "ls"@]), None),
            ("arguments"@, "array"@, "Define the arguments to pass to the command"@, None, Some(("string"@, Seq::<char>::empty()))),
        ],
        required: seq!["command"@, "arguments"@],
    }
}

/// The definition of the `shell` tool. Each item of `arguments` is a plain
/// string property: besides its type and empty description it has no items
/// and no allowed values of its own.
pub fn def_shell() -> (d: ToolDefinition)
    ensures
        defines_sig(d, shell_signature()),
        d.parameters matches Some(p) && (p.properties@.len() == 2 && (p.properties@[1].1.items matches Some(
            item,
        ) && item.items is None && item.property_enum is None)),
{
    let name = String::from_str("shell");
    let description = String::from_str("dasjkdjsakdjsa");
    let e0 = vec![String::from_str("sh"), String::from_str("zsh"), String::from_str("bash"), String::from_str("ls")];
    assert(e0@.map_values(|s: String| s@) =~= seq!["sh"@, "zsh"@, "bash"@, "ls"@]);
    let p0 = Property {
        kind: String::from_str("string"),
        description: String::from_str("command to run"),
        items: None,
        property_enum: Some(e0),
    };
    let p1 = Property {
        kind: String::from_str("array"),
        description: String::from_str("Define the arguments to pass to the command"),
        items: Some(Box::new(Property::default())),
        property_enum: None,
    };
    let properties = vec![(String::from_str("command"), p0), (String::from_str("arguments"), p1)];
    let required = vec![String::from_str("command"), String::from_str("arguments")];
    proof {
        reveal_strlit("command");
        reveal_strlit("arguments");
        assert(properties@[0].0@ == "command"@);
        assert(properties@[1].0@ == "arguments"@);
        assert(properties@[0].0@.len() != properties@[1].0@.len());
        assert forall|i: int, j: int|
            0 <= i < 2 && 0 <= j < 2 && i != j implies #[trigger] properties@[i].0@ != #[trigger] properties@[j].0@ by {}
    }
    assert(properties@.map_values(|q: (String, Property)| property_sig(q)) =~= seq![
        ("command"@, "string"@, "command to run"@, Some(seq!["sh"@, "zsh"@, "bash"@, "ls"@]), None),
        ("arguments"@, "array"@, "Define the arguments to pass to the command"@, None, Some(("string"@, Seq::<char>::empty()))),
    ]);
    assert(required@.map_values(|s: String| s@) =~= seq!["command"@, "arguments"@]);
    ToolDefinition::new(name, description, true, properties, Some(required))
}

} // verus!
