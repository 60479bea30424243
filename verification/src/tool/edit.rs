//! The `edit` tool: replaces an exact string in a file.
use vstd::prelude::*;
use vstd::string::StringExecFns;

use crate::text::{
    byte_len, chars_of, count_occurrences, decimal, occurrences, push_decimal, replace_all,
    replace_chars, str_byte_len, string_from_chars,
};
use crate::tool::spec::{names, param, ParamKind, ParamSpec, ParamSpecView, ToolSpec, ToolSpecView};

verus! {

/// What the model passes to the `edit` tool.
pub struct EditToolArgs {
    pub path: String,
    pub old_string: String,
    pub new_string: String,
    pub replace_all: bool,
}

/// The `edit` tool.
pub struct EditTool;

/// What an edit comes to: a reply with nothing written, or new file content and the
/// diff that is the reply.
pub enum EditOutcome {
    Reply(String),
    Rewrite { content: String, diff: String },
}

/// The unified diff, line by line, that turns `old` into `new`.
pub uninterp spec fn unified_line_diff(old: Seq<char>, new: Seq<char>) -> Seq<char>;

/// Calls `similar::TextDiff::from_lines(old, new).unified_diff()` and renders it with
/// `to_string`: the unified diff of the two texts, line by line, with the crate's
/// default context. The result is a function of the two texts alone; what it is
/// takes the diff algorithm to state and is left to the name.
#[verifier::external_body]
fn line_diff(old: &str, new: &str) -> (res: String)
    ensures
        res@ == unified_line_diff(old@, new@),
{
    similar::TextDiff::from_lines(old, new).unified_diff().to_string()
}

/// The reply when the old string does not occur.
pub open spec fn edit_not_found() -> Seq<char> {
    "old_string not found in file"@
}

/// The reply when the old string occurs `count` times and `replace_all` is not set.
pub open spec fn edit_ambiguous(count: nat) -> Seq<char> {
    "old_string occurs "@ + decimal(count)
        + " times; set replace_all=true to replace all or provide more context to disambiguate"@
}

/// The reply when the replacement changes nothing.
pub open spec fn edit_unchanged() -> Seq<char> {
    "no changes made (old_string and new_string are identical)"@
}

/// The tool's description of itself.
pub open spec fn edit_tool_spec() -> ToolSpecView {
    ToolSpecView {
        name: "edit"@,
        description: "Replace an exact string in a file. The `old_string` must match a byte sequence in the file exactly once unless `replace_all` is true. Returns a diff of the change."@,
        parameters: seq![
            ParamSpecView { name: "path"@, kind: ParamKind::String, description: "path to the file"@ },
            ParamSpecView {
                name: "old_string"@,
                kind: ParamKind::String,
                description: "Exact text to find. Must be unique unless replace_all is set."@,
            },
            ParamSpecView { name: "new_string"@, kind: ParamKind::String, description: "replacement text"@ },
            ParamSpecView {
                name: "replace_all"@,
                kind: ParamKind::Boolean,
                description: "replace every occurrence instead of requiring uniqueness"@,
            },
        ],
        required: seq!["path"@, "old_string"@, "new_string"@],
    }
}

impl EditTool {
    /// The tool's name.
    pub fn name(&self) -> (res: &'static str)
        ensures
            res@ == "edit"@,
    {
        "edit"
    }

    /// The tool's description, as offered to the model.
    pub fn json(&self) -> (res: ToolSpec)
        ensures
            res@ == edit_tool_spec(),
    {
        let mut parameters: Vec<ParamSpec> = Vec::new();
        parameters.push(param("path", ParamKind::String, "path to the file"));
        parameters.push(
            param(
                "old_string",
                ParamKind::String,
                "Exact text to find. Must be unique unless replace_all is set.",
            ),
        );
        parameters.push(param("new_string", ParamKind::String, "replacement text"));
        parameters.push(
            param(
                "replace_all",
                ParamKind::Boolean,
                "replace every occurrence instead of requiring uniqueness",
            ),
        );
        let required = names(&["path", "old_string", "new_string"]);
        let res = ToolSpec {
            name: String::from_str("edit"),
            description: String::from_str(
                "Replace an exact string in a file. The `old_string` must match a byte sequence in the file exactly once unless `replace_all` is true. Returns a diff of the change.",
            ),
            parameters,
            required,
        };
        assert(res@.parameters =~= edit_tool_spec().parameters);
        assert(res@.required =~= edit_tool_spec().required);
        res
    }

    /// A one-line summary of a call: the path and the byte lengths of both strings.
    pub fn note(&self, args: &EditToolArgs) -> (res: String)
        ensures
            res@ == "[edit] "@ + args.path@ + " old_string_len="@ + decimal(byte_len(args.old_string@)) + " new_string_len="@ + decimal(byte_len(args.new_string@)),
    {
        let mut res = String::from_str("[edit] ");
        res.append(args.path.as_str());
        res.append(" old_string_len=");
        push_decimal(&mut res, str_byte_len(args.old_string.as_str()) as u64);
        res.append(" new_string_len=");
        push_decimal(&mut res, str_byte_len(args.new_string.as_str()) as u64);
        res
    }

    /// The edit of a file whose content is `content`: the old string must occur,
    /// and exactly once unless `replace_all` is set; then every occurrence is replaced.
    pub fn edit_content(&self, content: &str, args: &EditToolArgs) -> (res: EditOutcome)
        requires
            content@.len() < usize::MAX,
        ensures
            ({
                let count = occurrences(content@, args.old_string@);
                let replaced = replace_all(content@, args.old_string@, args.new_string@);
                if count == 0 {
                    res matches EditOutcome::Reply(m) && m@ == edit_not_found()
                } else if !args.replace_all && count > 1 {
                    res matches EditOutcome::Reply(m) && m@ == edit_ambiguous(count)
                } else if replaced == content@ {
                    res matches EditOutcome::Reply(m) && m@ == edit_unchanged()
                } else {
                    res matches EditOutcome::Rewrite { content: c, diff: d }
                        && c@ == replaced && d@ == unified_line_diff(content@, replaced)
                }
            }),
    {
        let cs = chars_of(content);
        let old_cs = chars_of(args.old_string.as_str());
        let new_cs = chars_of(args.new_string.as_str());
        let count = count_occurrences(cs.as_slice(), old_cs.as_slice());
        if count == 0 {
            return EditOutcome::Reply(String::from_str("old_string not found in file"));
        }
        if !args.replace_all && count > 1 {
            let mut m = String::from_str("old_string occurs ");
            push_decimal(&mut m, count as u64);
            m.append(
                " times; set replace_all=true to replace all or provide more context to disambiguate",
            );
            return EditOutcome::Reply(m);
        }
        let replaced = replace_chars(cs.as_slice(), old_cs.as_slice(), new_cs.as_slice());
        let new_content = string_from_chars(replaced.as_slice());
        let before = String::from_str(content);
        if before == new_content {
            return EditOutcome::Reply(
                String::from_str("no changes made (old_string and new_string are identical)"),
            );
        }
        let diff = line_diff(content, new_content.as_str());
        EditOutcome::Rewrite { content: new_content, diff }
    }
}

} // verus!

verus! {

/// An edit whose old and new strings are the same never rewrites the file: it is
/// refused, or answered with "no changes made".
pub proof fn lemma_identical_strings_change_nothing(content: Seq<char>, old: Seq<char>)
    ensures
        replace_all(content, old, old) == content,
{
    crate::text::lemma_replace_self(content, old);
}

} // verus!
