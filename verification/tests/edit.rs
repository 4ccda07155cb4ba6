use mimi::tools::edit::{apply_edit, find_unique_match, Edit, EditError, EditType};

fn edit(kind: EditType, old: &str, new: &str) -> Edit {
    Edit {
        path: "test/file.txt".to_string(),
        edit_type: kind,
        old_content: old.to_string(),
        new_content: new.to_string(),
    }
}

#[test]
fn missing_old_content_returns_an_error_without_changing_the_file() {
    let content = "original content".to_string();
    let args = edit(EditType::Replace, "not present", "replacement");

    let result = apply_edit(&content, &args);

    assert_eq!(result, Err(EditError::NotFound));
}

#[test]
fn ambiguous_old_content_returns_an_error() {
    let content = "same and same".to_string();
    let args = edit(EditType::Delete, "same", "");

    let result = apply_edit(&content, &args);

    assert_eq!(result, Err(EditError::Ambiguous));
}

#[test]
fn overlapping_old_content_returns_an_error() {
    let content = "aaa".to_string();
    let args = edit(EditType::Replace, "aa", "b");

    let result = apply_edit(&content, &args);

    assert_eq!(result, Err(EditError::Ambiguous));
}

#[test]
fn find_unique_match_reports_each_error() {
    assert_eq!(find_unique_match("abc", ""), Err(EditError::EmptyOldContent));
    assert_eq!(find_unique_match("abc", "x"), Err(EditError::NotFound));
    assert_eq!(find_unique_match("abc", "abcd"), Err(EditError::NotFound));
    assert_eq!(find_unique_match("abab", "ab"), Err(EditError::Ambiguous));
    assert_eq!(find_unique_match("aaa", "aa"), Err(EditError::Ambiguous));
    assert_eq!(find_unique_match("hello world", "world"), Ok(6));
    // positions are byte offsets, as `str` indices count them
    assert_eq!(find_unique_match("héllo", "llo"), Ok(3));
    assert_eq!(find_unique_match("日本語", "語"), Ok(6));
}

#[test]
fn replace_delete_and_append_edit_at_the_match() {
    let content = "fn main() { old(); }";
    assert_eq!(
        apply_edit(content, &edit(EditType::Replace, "old", "new")),
        Ok("fn main() { new(); }".to_string())
    );
    assert_eq!(
        apply_edit(content, &edit(EditType::Delete, " old();", "ignored")),
        Ok("fn main() { }".to_string())
    );
    assert_eq!(
        apply_edit(content, &edit(EditType::Append, "old();", " more();")),
        Ok("fn main() { old(); more(); }".to_string())
    );
}

#[test]
fn edit_errors_carry_their_messages() {
    assert_eq!(EditError::EmptyOldContent.message(), "old_content must not be empty");
    assert_eq!(EditError::NotFound.message(), "old_content not found in file");
    assert_eq!(
        EditError::Ambiguous.message(),
        "old_content matched more than once; provide more surrounding content"
    );
    assert_eq!(
        apply_edit("x", &edit(EditType::Replace, "", "y")),
        Err(EditError::EmptyOldContent)
    );
}

#[test]
fn deleting_is_replacing_with_nothing() {
    let content = "keep [cut] keep";
    let deleted = apply_edit(content, &edit(EditType::Delete, "[cut]", "whatever"));
    let replaced = apply_edit(content, &edit(EditType::Replace, "[cut]", ""));
    assert_eq!(deleted, replaced);
    assert_eq!(deleted, Ok("keep  keep".to_string()));
}
