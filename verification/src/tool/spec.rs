//! Declarative descriptions of the tools offered to the model.
use vstd::prelude::*;
use vstd::string::StringExecFns;

verus! {

/// JSON type of a tool parameter.
#[derive(Debug, Clone, Copy, PartialEq, Eq, Structural)]
pub enum ParamKind {
    String,
    Boolean,
}

/// One named parameter of a tool.
pub struct ParamSpec {
    pub name: String,
    pub kind: ParamKind,
    pub description: String,
}

/// Mathematical value of a [`ParamSpec`].
pub struct ParamSpecView {
    pub name: Seq<char>,
    pub kind: ParamKind,
    pub description: Seq<char>,
}

impl View for ParamSpec {
    type V = ParamSpecView;

    open spec fn view(&self) -> ParamSpecView {
        ParamSpecView { name: self.name@, kind: self.kind, description: self.description@ }
    }
}

/// A function tool: its name, what it does, its parameters and which are required.
pub struct ToolSpec {
    pub name: String,
    pub description: String,
    pub parameters: Vec<ParamSpec>,
    pub required: Vec<String>,
}

/// Mathematical value of a [`ToolSpec`].
pub struct ToolSpecView {
    pub name: Seq<char>,
    pub description: Seq<char>,
    pub parameters: Seq<ParamSpecView>,
    pub required: Seq<Seq<char>>,
}

impl View for ToolSpec {
    type V = ToolSpecView;

    open spec fn view(&self) -> ToolSpecView {
        ToolSpecView {
            name: self.name@,
            description: self.description@,
            parameters: self.parameters@.map_values(|p: ParamSpec| p@),
            required: self.required@.map_values(|r: String| r@),
        }
    }
}

/// A parameter description.
pub fn param(name: &str, kind: ParamKind, description: &str) -> (res: ParamSpec)
    ensures
        res@ == (ParamSpecView { name: name@, kind, description: description@ }),
{
    ParamSpec { name: String::from_str(name), kind, description: String::from_str(description) }
}

/// The names of the required parameters, as strings.
pub fn names(ns: &[&str]) -> (res: Vec<String>)
    ensures
        res@.map_values(|r: String| r@) == ns@.map_values(|n: &str| n@),
{
    let mut res: Vec<String> = Vec::new();
    for i in 0..ns.len()
        invariant
            res@.len() == i,
            forall|k: int| 0 <= k < i ==> #[trigger] res@[k]@ == ns@[k]@,
    {
        res.push(String::from_str(ns[i]));
    }
    assert(res@.map_values(|r: String| r@) =~= ns@.map_values(|n: &str| n@));
    res
}

} // verus!
