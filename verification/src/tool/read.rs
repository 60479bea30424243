//! The `read` tool: reads a file.
use vstd::prelude::*;
use vstd::string::StringExecFns;

use crate::tool::spec::{names, param, ParamKind, ParamSpec, ParamSpecView, ToolSpec, ToolSpecView};

verus! {

/// What the model passes to the `read` tool.
pub struct ReadArgs {
    pub path: String,
}

/// The `read` tool.
pub struct Read;

/// The tool's description of itself.
pub open spec fn read_tool_spec() -> ToolSpecView {
    ToolSpecView {
        name: "read"@,
        description: "read file by path (relative or absolute)"@,
        parameters: seq![
            ParamSpecView { name: "path"@, kind: ParamKind::String, description: "path to the file"@ },
        ],
        required: seq!["path"@],
    }
}

impl Read {
    /// The tool's name.
    pub fn name(&self) -> (res: &'static str)
        ensures
            res@ == "read"@,
    {
        "read"
    }

    /// The tool's description, as offered to the model.
    pub fn json(&self) -> (res: ToolSpec)
        ensures
            res@ == read_tool_spec(),
    {
        let mut parameters: Vec<ParamSpec> = Vec::new();
        parameters.push(param("path", ParamKind::String, "path to the file"));
        let res = ToolSpec {
            name: String::from_str("read"),
            description: String::from_str("read file by path (relative or absolute)"),
            parameters,
            required: names(&["path"]),
        };
        assert(res@.parameters =~= read_tool_spec().parameters);
        assert(res@.required =~= read_tool_spec().required);
        res
    }

    /// A one-line summary of a call.
    pub fn note(&self, args: &ReadArgs) -> (res: String)
        ensures
            res@ == "[read] "@ + args.path@,
    {
        let mut res = String::from_str("[read] ");
        res.append(args.path.as_str());
        res
    }
}

} // verus!
