use mi::tool::bash::{BashTool, BashToolArgs};
use mi::tool::edit::{EditOutcome, EditTool, EditToolArgs};
use mi::tool::read::{Read, ReadArgs};
use mi::tool::spec::ParamKind;
use mi::tool::write::{WriteTool, WriteToolArgs};

fn edit_args(old: &str, new: &str, all: bool) -> EditToolArgs {
    EditToolArgs { path: "f.txt".to_string(), old_string: old.to_string(), new_string: new.to_string(), replace_all: all }
}

fn reply(o: EditOutcome) -> String {
    match o {
        EditOutcome::Reply(m) => m,
        EditOutcome::Rewrite { .. } => panic!("expected a reply"),
    }
}

#[test]
fn tool_names_and_descriptions() {
    assert_eq!(Read.name(), "read");
    assert_eq!(WriteTool.name(), "write");
    assert_eq!(EditTool.name(), "edit");
    assert_eq!(BashTool.name(), "bash");
    let r = Read.json();
    assert_eq!(r.name, "read");
    assert_eq!(r.description, "read file by path (relative or absolute)");
    assert_eq!(r.parameters.len(), 1);
    assert_eq!(r.parameters[0].name, "path");
    assert_eq!(r.required, vec!["path".to_string()]);
    let e = EditTool.json();
    assert_eq!(e.parameters.len(), 4);
    assert_eq!(e.parameters[3].name, "replace_all");
    assert_eq!(e.parameters[3].kind, ParamKind::Boolean);
    assert_eq!(e.required, vec!["path".to_string(), "old_string".to_string(), "new_string".to_string()]);
    let w = WriteTool.json();
    assert_eq!(w.parameters[1].description, "full new contents of the file");
    let b = BashTool.json();
    assert_eq!(b.parameters[0].kind, ParamKind::String);
    assert_eq!(b.description, "Run a shell command via `bash -c ...`. Returns combined stdout+stderr plus exit code.");
}

#[test]
fn tool_notes() {
    assert_eq!(Read.note(&ReadArgs { path: "a.rs".to_string() }), "[read] a.rs");
    assert_eq!(BashTool.note(&BashToolArgs { command: "ls -l".to_string() }), "[bash] ls -l");
    assert_eq!(
        WriteTool.note(&WriteToolArgs { path: "p".to_string(), content: "héllo".to_string() }),
        "[write] p content_len=6"
    );
    assert_eq!(EditTool.note(&edit_args("ab", "ü", false)), "[edit] f.txt old_string_len=2 new_string_len=2");
    assert_eq!(WriteTool.done(), "ok");
}

#[test]
fn bash_output_is_combined() {
    assert_eq!(BashTool.combine_output("", "", 0), "Exit code: 0");
    assert_eq!(BashTool.combine_output("", "oops", 2), "Exit code: 2\noops");
    assert_eq!(BashTool.combine_output("out", "", -1), "Exit code: -1\nout");
    assert_eq!(BashTool.combine_output("o", "e", 137), "Exit code: 137\nSTDOUT:\no\nSTDERR:\ne");
    assert_eq!(BashTool.combine_output("", "", i32::MIN), "Exit code: -2147483648");
}

#[test]
fn edit_refuses_missing_and_ambiguous() {
    assert_eq!(reply(EditTool.edit_content("abc", &edit_args("x", "y", false))), "old_string not found in file");
    assert_eq!(
        reply(EditTool.edit_content("a a a", &edit_args("a", "b", false))),
        "old_string occurs 3 times; set replace_all=true to replace all or provide more context to disambiguate"
    );
    assert_eq!(
        reply(EditTool.edit_content("aaaa", &edit_args("aa", "b", false))),
        "old_string occurs 2 times; set replace_all=true to replace all or provide more context to disambiguate"
    );
}

#[test]
fn edit_with_same_strings_changes_nothing() {
    assert_eq!(
        reply(EditTool.edit_content("abc", &edit_args("b", "b", false))),
        "no changes made (old_string and new_string are identical)"
    );
}

#[test]
fn edit_rewrites_and_diffs() {
    match EditTool.edit_content("one\ntwo\nthree\n", &edit_args("two", "2", false)) {
        EditOutcome::Rewrite { content, diff } => {
            assert_eq!(content, "one\n2\nthree\n");
            assert!(diff.contains("-two\n"));
            assert!(diff.contains("+2\n"));
            assert!(diff.starts_with("@@"));
        }
        EditOutcome::Reply(m) => panic!("unexpected reply {m}"),
    }
    match EditTool.edit_content("a-a-a", &edit_args("a", "bb", true)) {
        EditOutcome::Rewrite { content, .. } => assert_eq!(content, "bb-bb-bb"),
        EditOutcome::Reply(m) => panic!("unexpected reply {m}"),
    }
    match EditTool.edit_content("aaa", &edit_args("aa", "X", true)) {
        EditOutcome::Rewrite { content, .. } => assert_eq!(content, "Xa"),
        EditOutcome::Reply(m) => panic!("unexpected reply {m}"),
    }
}

#[test]
fn edit_with_empty_old_string_follows_str_replace() {
    match EditTool.edit_content("", &edit_args("", "new", false)) {
        EditOutcome::Rewrite { content, .. } => assert_eq!(content, "new"),
        EditOutcome::Reply(m) => panic!("unexpected reply {m}"),
    }
    assert_eq!(
        reply(EditTool.edit_content("ab", &edit_args("", "-", false))),
        "old_string occurs 3 times; set replace_all=true to replace all or provide more context to disambiguate"
    );
    match EditTool.edit_content("ab", &edit_args("", "-", true)) {
        EditOutcome::Rewrite { content, .. } => assert_eq!(content, "ab".replace("", "-")),
        EditOutcome::Reply(m) => panic!("unexpected reply {m}"),
    }
}
