//! The `write` tool: writes a whole file.
use vstd::prelude::*;
use vstd::string::StringExecFns;

use crate::text::{byte_len, decimal, push_decimal, str_byte_len};
use crate::tool::spec::{names, param, ParamKind, ParamSpec, ParamSpecView, ToolSpec, ToolSpecView};

verus! {

/// What the model passes to the `write` tool.
pub struct WriteToolArgs {
    pub path: String,
    pub content: String,
}

/// The `write` tool.
pub struct WriteTool;

/// The tool's description of itself.
pub open spec fn write_tool_spec() -> ToolSpecView {
    ToolSpecView {
        name: "write"@,
        description: "Write a file, replacing it entirely (creating it if needed). Parent directories are created automatically."@,
        parameters: seq![
            ParamSpecView { name: "path"@, kind: ParamKind::String, description: "path to the file"@ },
            ParamSpecView {
                name: "content"@,
                kind: ParamKind::String,
                description: "full new contents of the file"@,
            },
        ],
        required: seq!["path"@, "content"@],
    }
}

/// The reply once the file is written.
pub open spec fn write_done() -> Seq<char> {
    "ok"@
}

impl WriteTool {
    /// The tool's name.
    pub fn name(&self) -> (res: &'static str)
        ensures
            res@ == "write"@,
    {
        "write"
    }

    /// The tool's description, as offered to the model.
    pub fn json(&self) -> (res: ToolSpec)
        ensures
            res@ == write_tool_spec(),
    {
        let mut parameters: Vec<ParamSpec> = Vec::new();
        parameters.push(param("path", ParamKind::String, "path to the file"));
        parameters.push(param("content", ParamKind::String, "full new contents of the file"));
        let res = ToolSpec {
            name: String::from_str("write"),
            description: String::from_str(
                "Write a file, replacing it entirely (creating it if needed). Parent directories are created automatically.",
            ),
            parameters,
            required: names(&["path", "content"]),
        };
        assert(res@.parameters =~= write_tool_spec().parameters);
        assert(res@.required =~= write_tool_spec().required);
        res
    }

    /// A one-line summary of a call: the path and the byte length of the content.
    pub fn note(&self, args: &WriteToolArgs) -> (res: String)
        ensures
            res@ == "[write] "@ + args.path@ + " content_len="@ + decimal(byte_len(args.content@)),
    {
        let mut res = String::from_str("[write] ");
        res.append(args.path.as_str());
        res.append(" content_len=");
        push_decimal(&mut res, str_byte_len(args.content.as_str()) as u64);
        res
    }

    /// The reply once the file is written.
    pub fn done(&self) -> (res: String)
        ensures
            res@ == write_done(),
    {
        String::from_str("ok")
    }
}

} // verus!
