//! The tools that the model may call, and the definitions offered to it.

pub mod approval;
pub mod arguments;
pub mod bash;
pub mod edit;
pub mod file_search;
pub mod read;
pub mod shell;
pub mod todo;
pub mod write;

use vstd::prelude::*;

use crate::text::str_eq;
use crate::tools::{
    bash::def_bash, edit::def_edit_file, file_search::{def_search_content, def_search_files},
    read::def_read_file, todo::def_create_todo_list, write::def_write_to_file,
};

verus! {

/// A parameter of a tool (JSON field `type` is `kind`, `enum` is `property_enum`).
pub struct Property {
    pub kind: String,
    pub description: String,
    pub items: Option<Box<Property>>,
    pub property_enum: Option<Vec<String>>,
}

/// The parameter object of a tool: its properties, by distinct name, and the
/// names that are required (JSON field `type` is `kind`).
pub struct Parameters {
    pub kind: String,
    pub properties: Vec<(String, Property)>,
    pub required: Option<Vec<String>>,
}

/// A function tool as the Responses API describes it (JSON field `type` is `kind`).
pub struct ToolDefinition {
    pub kind: String,
    pub name: String,
    pub description: String,
    pub strict: bool,
    pub parameters: Option<Parameters>,
}

/// The names of a property list, in order.
pub open spec fn property_names(ps: Seq<(String, Property)>) -> Seq<Seq<char>> {
    ps.map_values(|p: (String, Property)| p.0@)
}

/// No two properties share a name.
pub open spec fn distinct_names(ps: Seq<(String, Property)>) -> bool {
    forall|i: int, j: int|
        0 <= i < ps.len() && 0 <= j < ps.len() && i != j ==> #[trigger] ps[i].0@ != #[trigger] ps[j].0@
}

/// What a property says of itself: name, type, description, allowed values,
/// and the type and description of its items.
pub open spec fn property_sig(p: (String, Property)) -> (
    Seq<char>,
    Seq<char>,
    Seq<char>,
    Option<Seq<Seq<char>>>,
    Option<(Seq<char>, Seq<char>)>,
) {
    (
        p.0@,
        p.1.kind@,
        p.1.description@,
        match p.1.property_enum {
            Some(v) => Some(v@.map_values(|s: String| s@)),
            None => None,
        },
        match p.1.items {
            Some(i) => Some((i.kind@, i.description@)),
            None => None,
        },
    )
}

/// `d` is the strict function tool `name` with `description`, whose
/// properties are, in order, those of `props`, and whose required parameters
/// are `required`.
pub open spec fn defines(
    d: ToolDefinition,
    name: Seq<char>,
    description: Seq<char>,
    props: Seq<(Seq<char>, Seq<char>, Seq<char>, Option<Seq<Seq<char>>>, Option<(Seq<char>, Seq<char>)>)>,
    required: Seq<Seq<char>>,
) -> bool {
    &&& d.kind@ == "function"@
    &&& d.name@ == name
    &&& d.description@ == description
    &&& d.strict
    &&& d.wf()
    &&& match d.parameters {
        Some(p) => {
            &&& p.kind@ == "object"@
            &&& p.properties@.map_values(|q: (String, Property)| property_sig(q)) == props
            &&& match p.required {
                Some(r) => r@.map_values(|s: String| s@) == required,
                None => false,
            }
        },
        None => false,
    }
}

/// Everything a tool definition states, as plain values.
pub struct ToolSignature {
    pub name: Seq<char>,
    pub description: Seq<char>,
    pub props: Seq<(Seq<char>, Seq<char>, Seq<char>, Option<Seq<Seq<char>>>, Option<(Seq<char>, Seq<char>)>)>,
    pub required: Seq<Seq<char>>,
}

/// `d` states exactly `sig`.
pub open spec fn defines_sig(d: ToolDefinition, sig: ToolSignature) -> bool {
    defines(d, sig.name, sig.description, sig.props, sig.required)
}

impl Default for Property {
    /// A string-typed property with an empty description.
    fn default() -> (p: Self)
        ensures
            p.kind@ == "string"@,
            p.description@ == Seq::<char>::empty(),
            p.items is None,
            p.property_enum is None,
    {
        Property { kind: String::from_str("string"), description: String::new(), items: None, property_enum: None }
    }
}

impl ToolDefinition {
    /// A function tool whose parameters form an object with `properties`.
    pub fn new(
        name: String,
        description: String,
        strict: bool,
        properties: Vec<(String, Property)>,
        required: Option<Vec<String>>,
    ) -> (d: Self)
        requires
            distinct_names(properties@),
        ensures
            d.kind@ == "function"@,
            d.name == name,
            d.description == description,
            d.strict == strict,
            d.parameters matches Some(p) && p.kind@ == "object"@ && p.properties == properties
                && p.required == required,
    {
        ToolDefinition {
            kind: String::from_str("function"),
            name,
            description,
            strict,
            parameters: Some(Parameters { kind: String::from_str("object"), properties, required }),
        }
    }

    /// The well-formedness that every definition keeps: distinct property names.
    pub open spec fn wf(&self) -> bool {
        self.parameters matches Some(p) ==> distinct_names(p.properties@)
    }
}

/// The tools the agent offers to the model.
#[derive(Debug, Clone, Copy, PartialEq, Eq, Structural)]
pub enum SystemTools {
    SearchFiles,
    SearchContent,
    ReadFile,
    WriteFile,
    EditFile,
    Bash,
    CreateTodoList,
}

impl SystemTools {
    /// Every tool, in the order offered to the model.
    pub open spec fn spec_all() -> Seq<SystemTools> {
        seq![
            SystemTools::SearchFiles,
            SystemTools::SearchContent,
            SystemTools::ReadFile,
            SystemTools::WriteFile,
            SystemTools::EditFile,
            SystemTools::Bash,
            SystemTools::CreateTodoList,
        ]
    }

    /// The name under which the model calls the tool.
    pub open spec fn spec_name(self) -> Seq<char> {
        match self {
            SystemTools::SearchFiles => "search_files"@,
            SystemTools::SearchContent => "search_content"@,
            SystemTools::ReadFile => "read_file"@,
            SystemTools::WriteFile => "write_to_file"@,
            SystemTools::EditFile => "edit_file"@,
            SystemTools::Bash => "bash"@,
            SystemTools::CreateTodoList => "create_todo_list"@,
        }
    }

    /// The tool called `name`, if any.
    pub open spec fn spec_from_name(name: Seq<char>) -> Option<SystemTools> {
        if name == "read_file"@ {
            Some(SystemTools::ReadFile)
        } else if name == "write_to_file"@ {
            Some(SystemTools::WriteFile)
        } else if name == "edit_file"@ {
            Some(SystemTools::EditFile)
        } else if name == "bash"@ {
            Some(SystemTools::Bash)
        } else if name == "search_files"@ {
            Some(SystemTools::SearchFiles)
        } else if name == "search_content"@ {
            Some(SystemTools::SearchContent)
        } else if name == "create_todo_list"@ {
            Some(SystemTools::CreateTodoList)
        } else {
            None
        }
    }

    /// What the tool's definition states.
    pub open spec fn spec_signature(self) -> ToolSignature {
        match self {
            SystemTools::SearchFiles => file_search::search_files_signature(),
            SystemTools::SearchContent => file_search::search_content_signature(),
            SystemTools::ReadFile => read::read_file_signature(),
            SystemTools::WriteFile => write::write_to_file_signature(),
            SystemTools::EditFile => edit::edit_file_signature(),
            SystemTools::Bash => bash::bash_signature(),
            SystemTools::CreateTodoList => todo::create_todo_list_signature(),
        }
    }

    /// Tools that change files or run commands wait for the user's approval.
    pub open spec fn spec_requires_approval(self) -> bool {
        self == SystemTools::WriteFile || self == SystemTools::EditFile || self == SystemTools::Bash
    }

    /// Every tool, in the order offered to the model.
    pub fn all() -> (v: Vec<Self>)
        ensures
            v@ == Self::spec_all(),
    {
        let v = vec![
            SystemTools::SearchFiles,
            SystemTools::SearchContent,
            SystemTools::ReadFile,
            SystemTools::WriteFile,
            SystemTools::EditFile,
            SystemTools::Bash,
            SystemTools::CreateTodoList,
        ];
        assert(v@ =~= Self::spec_all());
        v
    }

    /// The tool called `name`, if any.
    pub fn variant_from_name(name: &str) -> (r: Option<Self>)
        ensures
            r == Self::spec_from_name(name@),
    {
        if str_eq(name, "read_file") {
            Some(SystemTools::ReadFile)
        } else if str_eq(name, "write_to_file") {
            Some(SystemTools::WriteFile)
        } else if str_eq(name, "edit_file") {
            Some(SystemTools::EditFile)
        } else if str_eq(name, "bash") {
            Some(SystemTools::Bash)
        } else if str_eq(name, "search_files") {
            Some(SystemTools::SearchFiles)
        } else if str_eq(name, "search_content") {
            Some(SystemTools::SearchContent)
        } else if str_eq(name, "create_todo_list") {
            Some(SystemTools::CreateTodoList)
        } else {
            None
        }
    }

    /// The name under which the model calls the tool.
    pub fn name(&self) -> (s: String)
        ensures
            s@ == self.spec_name(),
    {
        match self {
            SystemTools::SearchFiles => String::from_str("search_files"),
            SystemTools::SearchContent => String::from_str("search_content"),
            SystemTools::ReadFile => String::from_str("read_file"),
            SystemTools::WriteFile => String::from_str("write_to_file"),
            SystemTools::EditFile => String::from_str("edit_file"),
            SystemTools::Bash => String::from_str("bash"),
            SystemTools::CreateTodoList => String::from_str("create_todo_list"),
        }
    }

    /// Whether a call of the tool waits for the user's approval.
    pub fn requires_approval(&self) -> (r: bool)
        ensures
            r == self.spec_requires_approval(),
    {
        match self {
            SystemTools::WriteFile | SystemTools::EditFile | SystemTools::Bash => true,
            _ => false,
        }
    }

    /// The definition offered to the model for this tool.
    pub fn definition(&self) -> (d: ToolDefinition)
        ensures
            defines_sig(d, self.spec_signature()),
            d.name@ == self.spec_name(),
    {
        match self {
            SystemTools::ReadFile => def_read_file(),
            SystemTools::WriteFile => def_write_to_file(),
            SystemTools::EditFile => def_edit_file(),
            SystemTools::Bash => def_bash(),
            SystemTools::SearchFiles => def_search_files(),
            SystemTools::SearchContent => def_search_content(),
            SystemTools::CreateTodoList => def_create_todo_list(),
        }
    }
}

/// A tool's name leads back to the tool: the model's call of the name it was
/// offered reaches the same tool.
pub proof fn law_tool_name_roundtrip(t: SystemTools)
    ensures
        SystemTools::spec_from_name(t.spec_name()) == Some(t),
{
    reveal_strlit("read_file");
    reveal_strlit("write_to_file");
    reveal_strlit("edit_file");
    reveal_strlit("bash");
    reveal_strlit("search_files");
    reveal_strlit("search_content");
    reveal_strlit("create_todo_list");
    assert("read_file"@.len() == 9);
    assert("write_to_file"@.len() == 13);
    assert("edit_file"@.len() == 9);
    assert("bash"@.len() == 4);
    assert("search_files"@.len() == 12);
    assert("search_content"@.len() == 14);
    assert("create_todo_list"@.len() == 16);
    assert("read_file"@[0] != "edit_file"@[0]);
}

/// Every tool is offered exactly once.
pub proof fn law_every_tool_offered_once(t: SystemTools)
    ensures
        SystemTools::spec_all().contains(t),
        forall|i: int, j: int|
            0 <= i < SystemTools::spec_all().len() && 0 <= j < SystemTools::spec_all().len()
                && SystemTools::spec_all()[i] == t && SystemTools::spec_all()[j] == t ==> i == j,
{
    match t {
        SystemTools::SearchFiles => assert(SystemTools::spec_all()[0] == t),
        SystemTools::SearchContent => assert(SystemTools::spec_all()[1] == t),
        SystemTools::ReadFile => assert(SystemTools::spec_all()[2] == t),
        SystemTools::WriteFile => assert(SystemTools::spec_all()[3] == t),
        SystemTools::EditFile => assert(SystemTools::spec_all()[4] == t),
        SystemTools::Bash => assert(SystemTools::spec_all()[5] == t),
        SystemTools::CreateTodoList => assert(SystemTools::spec_all()[6] == t),
    }
}

} // verus!
