use mimi::tools::arguments::{check_arguments, optional_string_argument, string_argument, ArgumentError};
use mimi::tools::bash::{bash_result, decimal_string, def_bash};
use mimi::tools::approval::confirms;
use mimi::tools::edit::def_edit_file;
use mimi::tools::file_search::{
    content_matches, def_search_content, def_search_files, search_mode, GrepMatch, SearchMode,
};
use mimi::tools::read::{def_read_file, path_within};
use mimi::tools::shell::{def_shell, shell_invocation};
use mimi::tools::todo::{def_create_todo_list, todo_file_name};
use mimi::tools::write::{def_write_to_file, write_mode, WriteMode};
use mimi::tools::{Property, SystemTools, ToolDefinition};

fn property_names(d: &ToolDefinition) -> Vec<String> {
    d.parameters.as_ref().unwrap().properties.iter().map(|(n, _)| n.clone()).collect()
}

fn required(d: &ToolDefinition) -> Vec<String> {
    d.parameters.as_ref().unwrap().required.clone().unwrap()
}

#[test]
fn every_tool_is_offered_under_its_own_name() {
    let all = SystemTools::all();
    assert_eq!(all.len(), 7);
    for tool in all {
        let name = tool.name();
        assert_eq!(SystemTools::variant_from_name(&name), Some(tool));
        let def = tool.definition();
        assert_eq!(def.name, name);
        assert_eq!(def.kind, "function");
        assert!(def.strict);
        assert_eq!(def.parameters.as_ref().unwrap().kind, "object");
    }
    assert_eq!(SystemTools::variant_from_name("shell"), None);
    assert_eq!(SystemTools::variant_from_name("Bash"), None);
}

#[test]
fn only_mutating_tools_require_approval() {
    let needing: Vec<SystemTools> =
        SystemTools::all().into_iter().filter(|t| t.requires_approval()).collect();
    assert_eq!(needing, vec![SystemTools::WriteFile, SystemTools::EditFile, SystemTools::Bash]);
}

#[test]
fn definitions_list_their_parameters() {
    assert_eq!(property_names(&def_bash()), vec!["command"]);
    assert_eq!(required(&def_read_file()), vec!["path"]);
    assert_eq!(property_names(&def_write_to_file()), vec!["path", "content", "overwrite"]);
    let edit = def_edit_file();
    assert_eq!(required(&edit), vec!["path", "type", "old_content", "new_content"]);
    let kinds = &edit.parameters.as_ref().unwrap().properties[1].1;
    assert_eq!(kinds.property_enum.clone().unwrap(), vec!["Replace", "Delete", "Append"]);
    let shell = def_shell();
    assert_eq!(shell.name, "shell");
    let args = &shell.parameters.as_ref().unwrap().properties[1].1;
    assert_eq!(args.kind, "array");
    assert_eq!(args.items.as_ref().unwrap().kind, "string");
    assert!(args.items.as_ref().unwrap().items.is_none());
    assert!(args.items.as_ref().unwrap().property_enum.is_none());
    assert_eq!(required(&def_create_todo_list()), vec!["contents"]);
    assert_eq!(required(&def_search_files()), vec!["query"]);
    assert_eq!(required(&def_search_content()), vec!["query", "mode"]);
    assert_eq!(
        def_write_to_file().parameters.unwrap().properties[2].1.kind,
        "boolean"
    );
}

#[test]
fn tool_definition_new_wraps_properties_in_an_object() {
    let def = ToolDefinition::new(
        "t".to_string(),
        "d".to_string(),
        false,
        vec![("a".to_string(), Property::default())],
        None,
    );
    assert_eq!(def.kind, "function");
    assert!(!def.strict);
    let params = def.parameters.unwrap();
    assert_eq!(params.kind, "object");
    assert!(params.required.is_none());
    assert_eq!(params.properties[0].1.kind, "string");
    assert_eq!(params.properties[0].1.description, "");
}

#[test]
fn bash_reports_failures_with_code_and_output() {
    assert_eq!(bash_result(true, Some(0), "out".into(), "".into()), Ok("out".to_string()));
    assert_eq!(
        bash_result(false, Some(2), "o".into(), "e".into()),
        Err("bash exited with 2\nstdout:\no\nstderr:\ne".to_string())
    );
    assert_eq!(
        bash_result(false, None, "".into(), "".into()),
        Err("bash exited with signal\nstdout:\n\nstderr:\n".to_string())
    );
    assert_eq!(decimal_string(0), "0");
    assert_eq!(decimal_string(127), "127");
    assert_eq!(decimal_string(-1), "-1");
    assert_eq!(decimal_string(i32::MIN), i32::MIN.to_string());
    assert_eq!(decimal_string(i32::MAX), i32::MAX.to_string());
}

#[test]
fn confirmation_needs_yes() {
    assert!(confirms("yes"));
    assert!(confirms("  YES \n"));
    assert!(!confirms("y"));
    assert!(!confirms("no"));
}

#[test]
fn reads_stay_within_the_working_directory() {
    let dir: Vec<Vec<u8>> = vec![b"/".to_vec(), b"home".to_vec(), b"me".to_vec()];
    let inside: Vec<Vec<u8>> = vec![b"/".to_vec(), b"home".to_vec(), b"me".to_vec(), b"a.txt".to_vec()];
    let outside: Vec<Vec<u8>> = vec![b"/".to_vec(), b"home".to_vec(), b"meme".to_vec()];
    assert!(path_within(&dir, &inside));
    assert!(path_within(&dir, &dir));
    assert!(!path_within(&dir, &outside));
    assert!(!path_within(&inside, &dir));
    let lossy_a: Vec<Vec<u8>> = vec![b"/".to_vec(), vec![0x66, 0xff]];
    let lossy_b: Vec<Vec<u8>> = vec![b"/".to_vec(), vec![0x66, 0xfe], b"x".to_vec()];
    assert!(!path_within(&lossy_a, &lossy_b));
}

#[test]
fn writes_replace_files_only_when_asked() {
    assert_eq!(write_mode(true), WriteMode::CreateOrTruncate);
    assert_eq!(write_mode(false), WriteMode::CreateNew);
    assert_eq!(todo_file_name("abc"), "todo_abc.md");
}

#[test]
fn content_search_modes_and_matches() {
    assert_eq!(search_mode(Some("regex")), SearchMode::Regex);
    assert_eq!(search_mode(Some("fuzzy")), SearchMode::Fuzzy);
    assert_eq!(search_mode(Some("plain")), SearchMode::PlainText);
    assert_eq!(search_mode(Some("other")), SearchMode::PlainText);
    assert_eq!(search_mode(None), SearchMode::PlainText);

    let m = |file_index: usize, line: u64| GrepMatch {
        file_index,
        line_number: line,
        col: 0,
        line_content: format!("line {line}"),
        context_before: vec![],
        context_after: vec![],
    };
    let files = vec!["src/a.rs".to_string(), "src/b.rs".to_string()];
    let found = content_matches(vec![m(1, 3), m(5, 4), m(0, 9)], &files);
    assert_eq!(found.len(), 2);
    assert_eq!(found[0].path, "src/b.rs");
    assert_eq!(found[0].line_number, 3);
    assert_eq!(found[1].path, "src/a.rs");
    assert_eq!(found[1].line_content, "line 9");
}

#[test]
fn string_arguments_are_read_from_json() {
    assert_eq!(string_argument(r#"{"command":"ls -la"}"#, "command"), Ok("ls -la".to_string()));
    assert_eq!(string_argument(r#"{"command":"a\"b"}"#, "command"), Ok("a\"b".to_string()));
    assert_eq!(string_argument(r#"{"command":3}"#, "command"), Err(ArgumentError::Missing));
    assert_eq!(string_argument(r#"{"other":"x"}"#, "command"), Err(ArgumentError::Missing));
    assert_eq!(string_argument("not json", "command"), Err(ArgumentError::InvalidJson));
    assert_eq!(optional_string_argument(r#"{"query":"q"}"#, "mode"), Ok(None));
    assert_eq!(
        optional_string_argument(r#"{"mode":"regex"}"#, "mode"),
        Ok(Some("regex".to_string()))
    );
    assert_eq!(optional_string_argument("[", "mode"), Err(ArgumentError::InvalidJson));
}

#[test]
fn shell_calls_need_a_command_and_string_arguments() {
    let (command, arguments) =
        shell_invocation(r#"{"command":"ls","arguments":["-l","src"]}"#).unwrap();
    assert_eq!(command, "ls");
    assert_eq!(arguments, vec!["-l".to_string(), "src".to_string()]);
    assert_eq!(shell_invocation(r#"{"arguments":[]}"#), Err("missing command to run".to_string()));
    assert_eq!(shell_invocation("not json"), Err("missing command to run".to_string()));
    assert_eq!(shell_invocation(r#"{"command":"ls"}"#), Err("errrr".to_string()));
    assert_eq!(
        shell_invocation(r#"{"command":"ls","arguments":"-l"}"#),
        Err("errrr".to_string())
    );
    assert_eq!(
        shell_invocation(r#"{"command":"ls","arguments":["-l",3]}"#),
        Err("each argument must be a string".to_string())
    );
    let (_, none) = shell_invocation(r#"{"command":"ls","arguments":[]}"#).unwrap();
    assert!(none.is_empty());
}

#[test]
fn arguments_must_be_json() {
    assert_eq!(check_arguments(r#"{"path":"a"}"#), Ok(()));
    assert_eq!(check_arguments("[1, 2]"), Ok(()));
    assert_eq!(check_arguments("{path"), Err(ArgumentError::InvalidJson));
}
