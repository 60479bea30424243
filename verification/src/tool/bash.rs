//! The `bash` tool: runs a shell command.
use vstd::prelude::*;
use vstd::string::StringExecFns;

use crate::text::{push_signed_decimal, signed_decimal};
use crate::tool::spec::{names, param, ParamKind, ParamSpec, ParamSpecView, ToolSpec, ToolSpecView};

verus! {

/// What the model passes to the `bash` tool.
pub struct BashToolArgs {
    pub command: String,
}

/// The `bash` tool.
pub struct BashTool;

/// The tool's description of itself.
pub open spec fn bash_tool_spec() -> ToolSpecView {
    ToolSpecView {
        name: "bash"@,
        description: "Run a shell command via `bash -c ...`. Returns combined stdout+stderr plus exit code."@,
        parameters: seq![
            ParamSpecView {
                name: "command"@,
                kind: ParamKind::String,
                description: "shell command to run"@,
            },
        ],
        required: seq!["command"@],
    }
}

/// The reply to a finished command: its exit code, then what it printed, with
/// headings only when it printed to both streams.
pub open spec fn combined_output(stdout: Seq<char>, stderr: Seq<char>, exit_code: int) -> Seq<char> {
    let head = "Exit code: "@ + signed_decimal(exit_code);
    if stdout.len() == 0 && stderr.len() == 0 {
        head
    } else if stdout.len() == 0 {
        head + "\n"@ + stderr
    } else if stderr.len() == 0 {
        head + "\n"@ + stdout
    } else {
        head + "\nSTDOUT:\n"@ + stdout + "\nSTDERR:\n"@ + stderr
    }
}

impl BashTool {
    /// The tool's name.
    pub fn name(&self) -> (res: &'static str)
        ensures
            res@ == "bash"@,
    {
        "bash"
    }

    /// The tool's description, as offered to the model.
    pub fn json(&self) -> (res: ToolSpec)
        ensures
            res@ == bash_tool_spec(),
    {
        let mut parameters: Vec<ParamSpec> = Vec::new();
        parameters.push(param("command", ParamKind::String, "shell command to run"));
        let res = ToolSpec {
            name: String::from_str("bash"),
            description: String::from_str(
                "Run a shell command via `bash -c ...`. Returns combined stdout+stderr plus exit code.",
            ),
            parameters,
            required: names(&["command"]),
        };
        assert(res@.parameters =~= bash_tool_spec().parameters);
        assert(res@.required =~= bash_tool_spec().required);
        res
    }

    /// A one-line summary of a call.
    pub fn note(&self, args: &BashToolArgs) -> (res: String)
        ensures
            res@ == "[bash] "@ + args.command@,
    {
        let mut res = String::from_str("[bash] ");
        res.append(args.command.as_str());
        res
    }

    /// The reply built from what a command printed and its exit code
    /// (the exit code is -1 when the command was ended by a signal).
    pub fn combine_output(&self, stdout: &str, stderr: &str, exit_code: i32) -> (res: String)
        ensures
            res@ == combined_output(stdout@, stderr@, exit_code as int),
    {
        let mut res = String::from_str("Exit code: ");
        push_signed_decimal(&mut res, exit_code as i64);
        let out_empty = stdout.is_empty();
        let err_empty = stderr.is_empty();
        if out_empty && err_empty {
        } else if out_empty {
            res.append("\n");
            res.append(stderr);
        } else if err_empty {
            res.append("\n");
            res.append(stdout);
        } else {
            res.append("\nSTDOUT:\n");
            res.append(stdout);
            res.append("\nSTDERR:\n");
            res.append(stderr);
        }
        res
    }
}

} // verus!
