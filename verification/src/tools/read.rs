//! The `read_file` tool: its definition, and which paths it may read.

use vstd::prelude::*;

use crate::tools::{defines_sig, property_sig, Property, ToolDefinition, ToolSignature};

verus! {

/// `path` lies within `dir`: the components of `dir`, each as the bytes of
/// its platform string, begin those of `path`, as `Path::starts_with`
/// compares them.
pub open spec fn spec_path_within(dir: Seq<Vec<u8>>, path: Seq<Vec<u8>>) -> bool {
    &&& dir.len() <= path.len()
    &&& forall|i: int| 0 <= i < dir.len() ==> (#[trigger] dir[i])@ == path[i]@
}

/// Whether two byte strings are equal.
fn bytes_eq(a: &[u8], b: &[u8]) -> (r: bool)
    ensures
        r == (a@ == b@),
{
    if a.len() != b.len() {
        return false;
    }
    let mut i: usize = 0;
    while i < a.len()
        invariant
            i <= a@.len(),
            a@.len() == b@.len(),
            forall|j: int| 0 <= j < i ==> a@[j] == b@[j],
        decreases a.len() - i,
    {
        if a[i] != b[i] {
            return false;
        }
        i = i + 1;
    }
    assert(a@ =~= b@);
    true
}

/// Whether the resolved path lies within the working directory; the tool
/// refuses to read anything else. Components are compared byte for byte, so
/// names that are not valid Unicode are told apart too.
pub fn path_within(dir: &Vec<Vec<u8>>, path: &Vec<Vec<u8>>) -> (r: bool)
    ensures
        r == spec_path_within(dir@, path@),
{
    if dir.len() > path.len() {
        return false;
    }
    let mut i: usize = 0;
    while i < dir.len()
        invariant
            i <= dir@.len(),
            dir@.len() <= path@.len(),
            forall|j: int| 0 <= j < i ==> (#[trigger] dir@[j])@ == path@[j]@,
        decreases dir.len() - i,
    {
        if !bytes_eq(dir[i].as_slice(), path[i].as_slice()) {
            return false;
        }
        i = i + 1;
    }
    true
}

/// What the `read_file` tool's definition says: name, description, parameters
/// and the required ones.
pub open spec fn read_file_signature() -> ToolSignature {
    ToolSignature {
        name: "read_file"@,
        description: "Read and returns full file contents"@,
        props: seq![
            ("path"@, "string"@, "Provide a file path to write to"@, None, None),
        ],
        required: seq!["path"@],
    }
}

/// The definition of the `read_file` tool.
pub fn def_read_file() -> (d: ToolDefinition)
    ensures
        defines_sig(d, read_file_signature()),
{
    let name = String::from_str("read_file");
    let description = String::from_str("Read and returns full file contents");
    let p0 = Property {
        kind: String::from_str("string"),
        description: String::from_str("Provide a file path to write to"),
        items: None,
        property_enum: None,
    };
    let properties = vec![(String::from_str("path"), p0)];
    let required = vec![String::from_str("path")];
    proof {
        reveal_strlit("path");
        assert(properties@[0].0@ == "path"@);
    }
    assert(properties@.map_values(|q: (String, Property)| property_sig(q)) =~= seq![
        ("path"@, "string"@, "Provide a file path to write to"@, None, None),
    ]);
    assert(required@.map_values(|s: String| s@) =~= seq!["path"@]);
    ToolDefinition::new(name, description, true, properties, Some(required))
}

} // verus!
