//! The file and content search tools: their definitions, and how results are assembled.

use vstd::prelude::*;

use crate::tools::{defines_sig, property_sig, Property, ToolDefinition, ToolSignature};

verus! {

/// How content search matches its query.
#[derive(Debug, Clone, Copy, PartialEq, Eq, Structural)]
pub enum SearchMode {
    PlainText,
    Regex,
    Fuzzy,
}

/// The requested mode: `regex` and `fuzzy` select those modes, anything else
/// (or nothing, `plain` by default) searches for the literal text.
pub open spec fn spec_search_mode(mode: Option<Seq<char>>) -> SearchMode {
    match mode {
        Some(m) => if m == "regex"@ {
            SearchMode::Regex
        } else if m == "fuzzy"@ {
            SearchMode::Fuzzy
        } else {
            SearchMode::PlainText
        },
        None => SearchMode::PlainText,
    }
}

/// The search mode that the tool's `mode` argument selects.
pub fn search_mode(mode: Option<&str>) -> (r: SearchMode)
    ensures
        r == spec_search_mode(match mode { Some(m) => Some(m@), None => None }),
{
    match mode {
        Some(m) => if crate::text::str_eq(m, "regex") {
            SearchMode::Regex
        } else if crate::text::str_eq(m, "fuzzy") {
            SearchMode::Fuzzy
        } else {
            SearchMode::PlainText
        },
        None => SearchMode::PlainText,
    }
}

/// Where in a file a file-search query points: a line, a range of
/// positions, or one position (lines and columns).
#[derive(Debug, Clone, Copy)]
pub enum Loc {
    Line(i32),
    Range { start: (i32, i32), end: (i32, i32) },
    Position { line: i32, col: i32 },
}

/// A line that content search found, identified by the index of its file.
pub struct GrepMatch {
    pub file_index: usize,
    pub line_number: u64,
    pub col: usize,
    pub line_content: String,
    pub context_before: Vec<String>,
    pub context_after: Vec<String>,
}

/// A found line, reported with the path of its file.
pub struct ContentMatch {
    pub path: String,
    pub line_number: u64,
    pub col: usize,
    pub line_content: String,
    pub context_before: Vec<String>,
    pub context_after: Vec<String>,
}

/// `m` reported with the path of its file.
pub open spec fn with_path(m: GrepMatch, files: Seq<String>) -> ContentMatch {
    ContentMatch {
        path: files[m.file_index as int],
        line_number: m.line_number,
        col: m.col,
        line_content: m.line_content,
        context_before: m.context_before,
        context_after: m.context_after,
    }
}

/// The reported matches: each match whose file index names one of `files`,
/// in order, with that file's path; the others are dropped.
pub open spec fn spec_content_matches(ms: Seq<GrepMatch>, files: Seq<String>) -> Seq<ContentMatch>
    decreases ms.len(),
{
    if ms.len() == 0 {
        seq![]
    } else {
        let prev = spec_content_matches(ms.drop_last(), files);
        if ms.last().file_index < files.len() {
            prev.push(with_path(ms.last(), files))
        } else {
            prev
        }
    }
}

/// Every match whose file index names one of `files` is reported, once, in
/// the order of the matches, with that file's path and the match's own line,
/// column, text and context; only matches naming no file are dropped.
pub proof fn law_every_match_with_a_file_is_reported(ms: Seq<GrepMatch>, files: Seq<String>)
    ensures
        ({
            let kept = ms.filter(|m: GrepMatch| m.file_index < files.len());
            let r = spec_content_matches(ms, files);
            &&& r.len() == kept.len()
            &&& forall|j: int|
                0 <= j < r.len() ==> {
                    &&& (#[trigger] r[j]).path == files[kept[j].file_index as int]
                    &&& r[j].line_number == kept[j].line_number
                    &&& r[j].col == kept[j].col
                    &&& r[j].line_content == kept[j].line_content
                    &&& r[j].context_before == kept[j].context_before
                    &&& r[j].context_after == kept[j].context_after
                }
        }),
    decreases ms.len(),
{
    reveal(Seq::filter);
    if ms.len() > 0 {
        law_every_match_with_a_file_is_reported(ms.drop_last(), files);
    }
}

/// The matches of a content search, each with the path of its file.
pub fn content_matches(matches: Vec<GrepMatch>, files: &Vec<String>) -> (r: Vec<ContentMatch>)
    ensures
        r@ == spec_content_matches(matches@, files@),
{
    let ghost all = matches@;
    let mut rest = matches;
    let mut out: Vec<ContentMatch> = Vec::new();
    let mut k: usize = 0;
    let n = rest.len();
    assert(all.take(0) =~= Seq::<GrepMatch>::empty());
    assert(all.skip(0) =~= all);
    while rest.len() > 0
        invariant
            n == all.len(),
            k + rest@.len() == n,
            rest@ == all.skip(k as int),
            out@ == spec_content_matches(all.take(k as int), files@),
        decreases rest.len(),
    {
        let m = rest.remove(0);
        proof {
            assert(m == all[k as int]);
            assert(all.take(k + 1).drop_last() =~= all.take(k as int));
            assert(rest@ =~= all.skip(k + 1));
        }
        if m.file_index < files.len() {
            let path = files[m.file_index].clone();
            out.push(
                ContentMatch {
                    path,
                    line_number: m.line_number,
                    col: m.col,
                    line_content: m.line_content,
                    context_before: m.context_before,
                    context_after: m.context_after,
                },
            );
        }
        k = k + 1;
    }
    assert(all.take(n as int) =~= all);
    out
}

/// What the `search_files` tool's definition says: name, description, parameters
/// and the required ones.
pub open spec fn search_files_signature() -> ToolSignature {
    ToolSignature {
        name: "search_files"@,
        description: "Fuzzy-search for files by name/path (not file contents). Use search_content to find text inside files."@,
        props: seq![
            ("query"@, "string"@, "Filename or path fragment to fuzzy-match (e.g. 'agent_loop', 'src/tools')"@, None, None),
        ],
        required: seq!["query"@],
    }
}

/// The definition of the `search_files` tool.
pub fn def_search_files() -> (d: ToolDefinition)
    ensures
        defines_sig(d, search_files_signature()),
{
    let name = String::from_str("search_files");
    let description = String::from_str("Fuzzy-search for files by name/path (not file contents). Use search_content to find text inside files.");
    let p0 = Property {
        kind: String::from_str("string"),
        description: String::from_str("Filename or path fragment to fuzzy-match (e.g. 'agent_loop', 'src/tools')"),
        items: None,
        property_enum: None,
    };
    let properties = vec![(String::from_str("query"), p0)];
    let required = vec![String::from_str("query")];
    proof {
        reveal_strlit("query");
        assert(properties@[0].0@ == "query"@);
    }
    assert(properties@.map_values(|q: (String, Property)| property_sig(q)) =~= seq![
        ("query"@, "string"@, "Filename or path fragment to fuzzy-match (e.g. 'agent_loop', 'src/tools')"@, None, None),
    ]);
    assert(required@.map_values(|s: String| s@) =~= seq!["query"@]);
    ToolDefinition::new(name, description, true, properties, Some(required))
}

/// What the `search_content` tool's definition says: name, description, parameters
/// and the required ones.
pub open spec fn search_content_signature() -> ToolSignature {
    ToolSignature {
        name: "search_content"@,
        description: "Search for text/keywords inside file contents (grep). Supports constraints like '*.rs keyword'. Use this when looking for code, symbols, or strings — not filenames."@,
        props: seq![
            ("query"@, "string"@, "Text/keyword/regex to find inside files. Optional path filters: '*.rs fn main', 'TODO'."@, None, None),
            ("mode"@, "string"@, "Search mode: 'plain' (literal, default), 'regex', or 'fuzzy'"@, Some(seq!["plain"@, "regex"@, "fuzzy"@]), None),
        ],
        required: seq!["query"@, "mode"@],
    }
}

/// The definition of the `search_content` tool.
pub fn def_search_content() -> (d: ToolDefinition)
    ensures
        defines_sig(d, search_content_signature()),
{
    let name = String::from_str("search_content");
    let description = String::from_str("Search for text/keywords inside file contents (grep). Supports constraints like '*.rs keyword'. Use this when looking for code, symbols, or strings — not filenames.");
    let p0 = Property {
        kind: String::from_str("string"),
        description: String::from_str("Text/keyword/regex to find inside files. Optional path filters: '*.rs fn main', 'TODO'."),
        items: None,
        property_enum: None,
    };
    let e1 = vec![String::from_str("plain"), String::from_str("regex"), String::from_str("fuzzy")];
    assert(e1@.map_values(|s: String| s@) =~= seq!["plain"@, "regex"@, "fuzzy"@]);
    let p1 = Property {
        kind: String::from_str("string"),
        description: String::from_str("Search mode: 'plain' (literal, default), 'regex', or 'fuzzy'"),
        items: None,
        property_enum: Some(e1),
    };
    let properties = vec![(String::from_str("query"), p0), (String::from_str("mode"), p1)];
    let required = vec![String::from_str("query"), String::from_str("mode")];
    proof {
        reveal_strlit("query");
        reveal_strlit("mode");
        assert(properties@[0].0@ == "query"@);
        assert(properties@[1].0@ == "mode"@);
        assert(properties@[0].0@.len() != properties@[1].0@.len());
        assert forall|i: int, j: int|
            0 <= i < 2 && 0 <= j < 2 && i != j implies #[trigger] properties@[i].0@ != #[trigger] properties@[j].0@ by {}
    }
    assert(properties@.map_values(|q: (String, Property)| property_sig(q)) =~= seq![
        ("query"@, "string"@, "Text/keyword/regex to find inside files. Optional path filters: '*.rs fn main', 'TODO'."@, None, None),
        ("mode"@, "string"@, "Search mode: 'plain' (literal, default), 'regex', or 'fuzzy'"@, Some(seq!["plain"@, "regex"@, "fuzzy"@]), None),
    ]);
    assert(required@.map_values(|s: String| s@) =~= seq!["query"@, "mode"@]);
    ToolDefinition::new(name, description, true, properties, Some(required))
}

} // verus!
