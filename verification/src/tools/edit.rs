//! Targeted edits of a file's text: find one unique occurrence, then replace,
//! delete or append at it.

use vstd::prelude::*;

use vstd::utf8::{encode_scalar, encode_utf8};

use crate::text::{chars_of, string_from_chars};
use crate::tools::{defines_sig, property_sig, Property, ToolDefinition, ToolSignature};

verus! {

/// The operation an edit performs at the matched text.
#[derive(Debug, Clone, Copy, PartialEq, Eq, Structural)]
pub enum EditType {
    Replace,
    Delete,
    Append,
}

/// The arguments of the `edit_file` tool.
pub struct Edit {
    pub path: String,
    pub edit_type: EditType,
    pub old_content: String,
    pub new_content: String,
}

/// Why an edit was refused; the file is then left as it was.
#[derive(Debug, Clone, Copy, PartialEq, Eq, Structural)]
pub enum EditError {
    EmptyOldContent,
    NotFound,
    Ambiguous,
}

/// `pattern` occurs in `content` starting at character position `i`.
pub open spec fn matches_at(content: Seq<char>, pattern: Seq<char>, i: int) -> bool {
    &&& 0 <= i
    &&& i + pattern.len() <= content.len()
    &&& content.subrange(i, i + pattern.len()) == pattern
}

/// `pattern` occurs in `content` at `i` and nowhere else.
pub open spec fn unique_match(content: Seq<char>, pattern: Seq<char>, i: int) -> bool {
    &&& matches_at(content, pattern, i)
    &&& forall|j: int| j != i ==> !#[trigger] matches_at(content, pattern, j)
}

/// `pattern` occurs in `content` at two different positions.
pub open spec fn matches_twice(content: Seq<char>, pattern: Seq<char>) -> bool {
    exists|i: int, j: int|
        i < j && #[trigger] matches_at(content, pattern, i) && #[trigger] matches_at(
            content,
            pattern,
            j,
        )
}

/// The outcome of searching `content` for the text an edit replaces.
pub open spec fn spec_find_unique_match(content: Seq<char>, pattern: Seq<char>, r: Result<
    usize,
    EditError,
>) -> bool {
    match r {
        Ok(k) => pattern.len() > 0 && unique_match(content, pattern, k as int),
        Err(EditError::EmptyOldContent) => pattern.len() == 0,
        Err(EditError::NotFound) => pattern.len() > 0 && forall|j: int|
            !#[trigger] matches_at(content, pattern, j),
        Err(EditError::Ambiguous) => pattern.len() > 0 && matches_twice(content, pattern),
    }
}

/// The text after an edit of kind `kind` at the match `[k, k + old_len)`.
pub open spec fn edited(
    content: Seq<char>,
    kind: EditType,
    k: int,
    old_len: int,
    new_content: Seq<char>,
) -> Seq<char> {
    match kind {
        EditType::Replace => content.subrange(0, k) + new_content + content.subrange(
            k + old_len,
            content.len() as int,
        ),
        EditType::Delete => content.subrange(0, k) + content.subrange(
            k + old_len,
            content.len() as int,
        ),
        EditType::Append => content.subrange(0, k + old_len) + new_content + content.subrange(
            k + old_len,
            content.len() as int,
        ),
    }
}

/// A deletion removes exactly the matched text: it is a replacement with
/// nothing, whatever new content the call carries.
pub proof fn law_delete_is_empty_replace(
    content: Seq<char>,
    k: int,
    old_len: int,
    new_content: Seq<char>,
)
    ensures
        edited(content, EditType::Delete, k, old_len, new_content) == edited(
            content,
            EditType::Replace,
            k,
            old_len,
            Seq::empty(),
        ),
{
    assert(edited(content, EditType::Delete, k, old_len, new_content) =~= edited(
        content,
        EditType::Replace,
        k,
        old_len,
        Seq::empty(),
    ));
}

/// A replacement or append leaves the edited text in place right where the
/// match was (replace) or right after it (append), and keeps all text before.
pub proof fn law_edit_places_new_content(
    content: Seq<char>,
    pattern: Seq<char>,
    k: int,
    new_content: Seq<char>,
)
    requires
        matches_at(content, pattern, k),
    ensures
        edited(content, EditType::Replace, k, pattern.len() as int, new_content).subrange(
            k,
            k + new_content.len(),
        ) == new_content,
        edited(content, EditType::Append, k, pattern.len() as int, new_content).subrange(
            0,
            k + pattern.len() + new_content.len(),
        ) == content.subrange(0, k + pattern.len()) + new_content,
        edited(content, EditType::Replace, k, pattern.len() as int, new_content).subrange(0, k)
            == content.subrange(0, k),
{
    let r = edited(content, EditType::Replace, k, pattern.len() as int, new_content);
    assert(r.subrange(k, k + new_content.len()) =~= new_content);
    assert(r.subrange(0, k) =~= content.subrange(0, k));
    let a = edited(content, EditType::Append, k, pattern.len() as int, new_content);
    assert(a.subrange(0, k + pattern.len() + new_content.len()) =~= content.subrange(
        0,
        k + pattern.len(),
    ) + new_content);
}

/// An edit changes only the matched text: every kind keeps all text after
/// the match, right after what it writes, and the result is exactly as long
/// as the content with the match's text taken out and the new text put in.
pub proof fn law_edit_keeps_the_rest(
    content: Seq<char>,
    pattern: Seq<char>,
    k: int,
    new_content: Seq<char>,
)
    requires
        matches_at(content, pattern, k),
    ensures
        ({
            let n = content.len() as int;
            let p = pattern.len() as int;
            let m = new_content.len() as int;
            let r = edited(content, EditType::Replace, k, p, new_content);
            let d = edited(content, EditType::Delete, k, p, new_content);
            let a = edited(content, EditType::Append, k, p, new_content);
            &&& r.len() == n - p + m
            &&& r.subrange(0, k) == content.subrange(0, k)
            &&& r.subrange(k, k + m) == new_content
            &&& r.subrange(k + m, n - p + m) == content.subrange(k + p, n)
            &&& d.len() == n - p
            &&& d.subrange(0, k) == content.subrange(0, k)
            &&& d.subrange(k, n - p) == content.subrange(k + p, n)
            &&& a.len() == n + m
            &&& a.subrange(0, k + p) == content.subrange(0, k + p)
            &&& a.subrange(k + p, k + p + m) == new_content
            &&& a.subrange(k + p + m, n + m) == content.subrange(k + p, n)
        }),
{
    let n = content.len() as int;
    let p = pattern.len() as int;
    let m = new_content.len() as int;
    let r = edited(content, EditType::Replace, k, p, new_content);
    let d = edited(content, EditType::Delete, k, p, new_content);
    let a = edited(content, EditType::Append, k, p, new_content);
    assert(r.subrange(0, k) =~= content.subrange(0, k));
    assert(r.subrange(k, k + m) =~= new_content);
    assert(r.subrange(k + m, n - p + m) =~= content.subrange(k + p, n));
    assert(d.subrange(0, k) =~= content.subrange(0, k));
    assert(d.subrange(k, n - p) =~= content.subrange(k + p, n));
    assert(a.subrange(0, k + p) =~= content.subrange(0, k + p));
    assert(a.subrange(k + p, k + p + m) =~= new_content);
    assert(a.subrange(k + p + m, n + m) =~= content.subrange(k + p, n));
}

impl EditError {
    /// The message the tool reports for this error.
    pub fn message(&self) -> (s: String)
        ensures
            s@ == self.spec_message(),
    {
        match self {
            EditError::EmptyOldContent => String::from_str("old_content must not be empty"),
            EditError::NotFound => String::from_str("old_content not found in file"),
            EditError::Ambiguous => String::from_str(
                "old_content matched more than once; provide more surrounding content",
            ),
        }
    }

    pub open spec fn spec_message(&self) -> Seq<char> {
        match self {
            EditError::EmptyOldContent => "old_content must not be empty"@,
            EditError::NotFound => "old_content not found in file"@,
            EditError::Ambiguous => "old_content matched more than once; provide more surrounding content"@,
        }
    }
}

fn matches_at_exec(content: &[char], pattern: &[char], i: usize) -> (r: bool)
    requires
        i + pattern@.len() <= content@.len(),
    ensures
        r == matches_at(content@, pattern@, i as int),
{
    let m = pattern.len();
    let cl = content.len();
    let mut t: usize = 0;
    while t < m
        invariant
            t <= m,
            cl == content@.len(),
            m == pattern@.len(),
            i + m <= content@.len(),
            content@.subrange(i as int, i + t) == pattern@.subrange(0, t as int),
        decreases m - t,
    {
        if content[i + t] != pattern[t] {
            assert(content@.subrange(i as int, i + m)[t as int] == content@[i + t]);
            return false;
        }
        t = t + 1;
        assert(content@.subrange(i as int, i + t) =~= pattern@.subrange(0, t as int));
    }
    assert(pattern@.subrange(0, m as int) =~= pattern@);
    true
}

/// The character position of the only occurrence of `pattern` in `content`.
pub fn find_unique_match_chars(content: &[char], pattern: &[char]) -> (r: Result<usize, EditError>)
    ensures
        spec_find_unique_match(content@, pattern@, r),
{
    let n = content.len();
    let m = pattern.len();
    if m == 0 {
        return Err(EditError::EmptyOldContent);
    }
    if m > n {
        assert forall|j: int| !#[trigger] matches_at(content@, pattern@, j) by {}
        return Err(EditError::NotFound);
    }
    let mut first: Option<usize> = None;
    let mut i: usize = 0;
    while i <= n - m
        invariant
            0 < m <= n,
            n == content@.len(),
            m == pattern@.len(),
            i <= n - m + 1,
            match first {
                None => forall|j: int| 0 <= j < i ==> !#[trigger] matches_at(content@, pattern@, j),
                Some(k) => {
                    &&& k < i
                    &&& matches_at(content@, pattern@, k as int)
                    &&& forall|j: int|
                        0 <= j < i && j != k ==> !#[trigger] matches_at(content@, pattern@, j)
                },
            },
        decreases n - m + 1 - i,
    {
        if matches_at_exec(content, pattern, i) {
            match first {
                Some(k) => {
                    assert(matches_at(content@, pattern@, k as int));
                    assert(matches_at(content@, pattern@, i as int));
                    assert(matches_twice(content@, pattern@));
                    return Err(EditError::Ambiguous);
                },
                None => {
                    first = Some(i);
                },
            }
        }
        i = i + 1;
    }
    match first {
        Some(k) => {
            assert forall|j: int| j != k implies !#[trigger] matches_at(content@, pattern@, j) by {
                if j >= i {
                    assert(j + m > n);
                }
            }
            Ok(k)
        },
        None => {
            assert forall|j: int| !#[trigger] matches_at(content@, pattern@, j) by {
                if j >= i {
                    assert(j + m > n);
                }
            }
            Err(EditError::NotFound)
        },
    }
}

/// The number of bytes that the first `k` characters of `s` take in UTF-8.
pub open spec fn byte_offset(s: Seq<char>, k: int) -> int {
    encode_utf8(s.take(k)).len() as int
}

/// UTF-8 encodes a concatenation piece by piece.
pub proof fn lemma_encode_utf8_concat(a: Seq<char>, b: Seq<char>)
    ensures
        encode_utf8(a + b) == encode_utf8(a) + encode_utf8(b),
    decreases a.len(),
{
    if a.len() == 0 {
        assert(a + b =~= b);
        assert(encode_utf8(a) =~= Seq::<u8>::empty());
        assert(encode_utf8(a) + encode_utf8(b) =~= encode_utf8(b));
    } else {
        lemma_encode_utf8_concat(a.drop_first(), b);
        assert((a + b).drop_first() =~= a.drop_first() + b);
        assert((a + b)[0] == a[0]);
        assert(encode_utf8(a + b) =~= encode_scalar(a[0] as u32) + (encode_utf8(a.drop_first())
            + encode_utf8(b)));
    }
}

/// The number of bytes of `c` in UTF-8.
fn utf8_width(c: char) -> (w: usize)
    ensures
        w == encode_scalar(c as u32).len(),
{
    proof {
        vstd::utf8::char_is_scalar(c);
    }
    let v = c as u32;
    if v < 0x80 {
        1
    } else if v < 0x800 {
        2
    } else if v < 0x10000 {
        3
    } else {
        4
    }
}

/// The byte offset of the only occurrence of `old_content` in `content`, as
/// `str` indices count; an error when `old_content` is empty, absent, or occurs
/// more than once.
pub fn find_unique_match(content: &str, old_content: &str) -> (r: Result<usize, EditError>)
    ensures
        match r {
            Ok(b) => exists|k: usize|
                spec_find_unique_match(content@, old_content@, Ok(k)) && b == byte_offset(
                    content@,
                    k as int,
                ),
            Err(e) => spec_find_unique_match(content@, old_content@, Err(e)),
        },
{
    let c = chars_of(content);
    let p = chars_of(old_content);
    let k = match find_unique_match_chars(c.as_slice(), p.as_slice()) {
        Ok(k) => k,
        Err(e) => return Err(e),
    };
    let bytes = content.as_bytes();
    let total = bytes.len();
    assert(matches_at(c@, p@, k as int));
    let mut offset: usize = 0;
    let mut i: usize = 0;
    assert(c@.take(0) =~= Seq::<char>::empty());
    assert(encode_utf8(Seq::<char>::empty()) =~= Seq::<u8>::empty());
    while i < k
        invariant
            i <= k <= c@.len(),
            c@ == content@,
            total == encode_utf8(content@).len(),
            offset == byte_offset(c@, i as int),
        decreases k - i,
    {
        let w = utf8_width(c[i]);
        proof {
            lemma_encode_utf8_concat(c@.take(i as int), seq![c@[i as int]]);
            assert(c@.take(i + 1) =~= c@.take(i as int) + seq![c@[i as int]]);
            let one = seq![c@[i as int]];
            assert(one.drop_first() =~= Seq::<char>::empty());
            assert(encode_utf8(one.drop_first()) =~= Seq::<u8>::empty());
            assert(encode_utf8(one) == encode_scalar(one[0] as u32) + encode_utf8(one.drop_first()));
            assert(encode_utf8(one) =~= encode_scalar(c@[i as int] as u32));
            lemma_encode_utf8_concat(c@.take(i + 1), c@.skip(i + 1));
            assert(c@.take(i + 1) + c@.skip(i + 1) =~= c@);
        }
        offset = offset + w;
        i = i + 1;
    }
    Ok(offset)
}

fn push_range(out: &mut Vec<char>, src: &[char], from: usize, to: usize)
    requires
        from <= to <= src@.len(),
    ensures
        final(out)@ == old(out)@ + src@.subrange(from as int, to as int),
{
    let mut i = from;
    while i < to
        invariant
            from <= i <= to <= src@.len(),
            out@ == old(out)@ + src@.subrange(from as int, i as int),
        decreases to - i,
    {
        out.push(src[i]);
        i = i + 1;
        assert(out@ =~= old(out)@ + src@.subrange(from as int, i as int));
    }
}

/// The text of a file after `edit`: the edit's operation applied at the only
/// occurrence of its old content, or the reason it cannot be applied.
pub fn apply_edit(content: &str, edit: &Edit) -> (r: Result<String, EditError>)
    ensures
        match r {
            Ok(s) => exists|k: usize|
                spec_find_unique_match(content@, edit.old_content@, Ok(k)) && s@ == edited(
                    content@,
                    edit.edit_type,
                    k as int,
                    edit.old_content@.len() as int,
                    edit.new_content@,
                ),
            Err(e) => spec_find_unique_match(content@, edit.old_content@, Err(e)),
        },
{
    let c = chars_of(content);
    let old = chars_of(edit.old_content.as_str());
    let new = chars_of(edit.new_content.as_str());
    let k = match find_unique_match_chars(c.as_slice(), old.as_slice()) {
        Ok(k) => k,
        Err(e) => return Err(e),
    };
    let n = c.len();
    assert(matches_at(c@, old@, k as int));
    let end = k + old.len();
    let mut out: Vec<char> = Vec::new();
    match edit.edit_type {
        EditType::Replace => {
            push_range(&mut out, c.as_slice(), 0, k);
            push_range(&mut out, new.as_slice(), 0, new.len());
            push_range(&mut out, c.as_slice(), end, n);
        },
        EditType::Delete => {
            push_range(&mut out, c.as_slice(), 0, k);
            push_range(&mut out, c.as_slice(), end, n);
        },
        EditType::Append => {
            push_range(&mut out, c.as_slice(), 0, end);
            push_range(&mut out, new.as_slice(), 0, new.len());
            push_range(&mut out, c.as_slice(), end, n);
        },
    }
    assert(new@.subrange(0, new@.len() as int) =~= new@);
    assert(out@ =~= edited(c@, edit.edit_type, k as int, old@.len() as int, new@));
    Ok(string_from_chars(out.as_slice()))
}

/// What the `edit_file` tool's definition says: name, description, parameters
/// and the required ones.
pub open spec fn edit_file_signature() -> ToolSignature {
    ToolSignature {
        name: "edit_file"@,
        description: "Find and replace, delete, or append content in a file"@,
        props: seq![
            ("path"@, "string"@, "Path to the file to edit"@, None, None),
            ("type"@, "string"@, "Edit operation: 'Replace' to substitute text, 'Delete' to remove text, 'Append' to insert after a match"@, Some(seq!["Replace"@, "Delete"@, "Append"@]), None),
            ("old_content"@, "string"@, "Existing text to locate in the file. For Append, new_content is inserted after this match"@, None, None),
            ("new_content"@, "string"@, "Replacement or appended text (Replace/Append). Use empty string for Delete"@, None, None),
        ],
        required: seq!["path"@, "type"@, "old_content"@, "new_content"@],
    }
}

/// The definition of the `edit_file` tool.
pub fn def_edit_file() -> (d: ToolDefinition)
    ensures
        defines_sig(d, edit_file_signature()),
{
    let name = String::from_str("edit_file");
    let description = String::from_str("Find and replace, delete, or append content in a file");
    let p0 = Property {
        kind: String::from_str("string"),
        description: String::from_str("Path to the file to edit"),
        items: None,
        property_enum: None,
    };
    let e1 = vec![String::from_str("Replace"), String::from_str("Delete"), String::from_str("Append")];
    assert(e1@.map_values(|s: String| s@) =~= seq!["Replace"@, "Delete"@, "Append"@]);
    let p1 = Property {
        kind: String::from_str("string"),
        description: String::from_str("Edit operation: 'Replace' to substitute text, 'Delete' to remove text, 'Append' to insert after a match"),
        items: None,
        property_enum: Some(e1),
    };
    let p2 = Property {
        kind: String::from_str("string"),
        description: String::from_str("Existing text to locate in the file. For Append, new_content is inserted after this match"),
        items: None,
        property_enum: None,
    };
    let p3 = Property {
        kind: String::from_str("string"),
        description: String::from_str("Replacement or appended text (Replace/Append). Use empty string for Delete"),
        items: None,
        property_enum: None,
    };
    let properties = vec![(String::from_str("path"), p0), (String::from_str("type"), p1), (String::from_str("old_content"), p2), (String::from_str("new_content"), p3)];
    let required = vec![String::from_str("path"), String::from_str("type"), String::from_str("old_content"), String::from_str("new_content")];
    proof {
        reveal_strlit("path");
        reveal_strlit("type");
        reveal_strlit("old_content");
        reveal_strlit("new_content");
        assert(properties@[0].0@ == "path"@);
        assert(properties@[1].0@ == "type"@);
        assert(properties@[2].0@ == "old_content"@);
        assert(properties@[3].0@ == "new_content"@);
        assert(properties@[0].0@[0] != properties@[1].0@[0]);
        assert(properties@[0].0@.len() != properties@[2].0@.len());
        assert(properties@[0].0@.len() != properties@[3].0@.len());
        assert(properties@[1].0@.len() != properties@[2].0@.len());
        assert(properties@[1].0@.len() != properties@[3].0@.len());
        assert(properties@[2].0@[0] != properties@[3].0@[0]);
        assert forall|i: int, j: int|
            0 <= i < 4 && 0 <= j < 4 && i != j implies #[trigger] properties@[i].0@ != #[trigger] properties@[j].0@ by {}
    }
    assert(properties@.map_values(|q: (String, Property)| property_sig(q)) =~= seq![
        ("path"@, "string"@, "Path to the file to edit"@, None, None),
        ("type"@, "string"@, "Edit operation: 'Replace' to substitute text, 'Delete' to remove text, 'Append' to insert after a match"@, Some(seq!["Replace"@, "Delete"@, "Append"@]), None),
        ("old_content"@, "string"@, "Existing text to locate in the file. For Append, new_content is inserted after this match"@, None, None),
        ("new_content"@, "string"@, "Replacement or appended text (Replace/Append). Use empty string for Delete"@, None, None),
    ]);
    assert(required@.map_values(|s: String| s@) =~= seq!["path"@, "type"@, "old_content"@, "new_content"@]);
    ToolDefinition::new(name, description, true, properties, Some(required))
}

} // verus!
