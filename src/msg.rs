use vstd::prelude::*;

use crate::tt::Subtree;

verus! {

/// The code carried by an error response.
#[derive(Clone, Copy, Debug, PartialEq, Eq, Structural)]
pub enum ErrorCode {
    /// The connection to the worker ended; synthesized by the client.
    ServerErrorEnd,
    /// The worker failed to expand the macro.
    ExpansionError,
    /// The macro itself reported a failure.
    UserError,
}

/// An error response: a code and a human-readable message.
#[derive(Clone, Debug, PartialEq, Eq)]
pub struct ResponseError {
    pub code: ErrorCode,
    pub message: String,
}

/// The kind of a procedural macro exported by a library.
#[derive(Clone, Copy, Debug, PartialEq, Eq, Structural)]
pub enum ProcMacroKind {
    CustomDerive,
    FuncLike,
    Attr,
}

/// Asks the worker which macros a library exports.
#[derive(Clone, Debug, PartialEq, Eq)]
pub struct ListMacrosTask {
    pub lib: String,
}

/// The macros a library exports, each with its kind.
#[derive(Clone, Debug, PartialEq, Eq)]
pub struct ListMacrosResult {
    pub macros: Vec<(String, ProcMacroKind)>,
}

/// Asks the worker to run one macro of a library on a token tree.
#[derive(Clone, Debug, PartialEq, Eq)]
pub struct ExpansionTask {
    pub macro_body: Subtree,
    pub macro_name: String,
    pub attributes: Option<Subtree>,
    pub lib: String,
}

/// The token tree a macro expanded to.
#[derive(Clone, Debug, PartialEq, Eq)]
pub struct ExpansionResult {
    pub expansion: Subtree,
}

/// A request sent to the worker.
#[derive(Clone, Debug, PartialEq, Eq)]
pub enum Request {
    ListMacro(ListMacrosTask),
    ExpansionMacro(ExpansionTask),
}

/// A response read from the worker.
#[derive(Clone, Debug, PartialEq, Eq)]
pub enum Response {
    Error(ResponseError),
    ListMacro(ListMacrosResult),
    ExpansionMacro(ExpansionResult),
}

/// The reason given when a response does not have the expected shape.
pub open spec fn shape_mismatch_reason() -> Seq<char> {
    "Fail to convert from response"@
}

/// The payload of a listing response, if `res` is one.
pub open spec fn spec_list_macros_result(res: Response) -> Option<ListMacrosResult> {
    match res {
        Response::ListMacro(r) => Some(r),
        _ => None,
    }
}

/// The payload of an expansion response, if `res` is one.
pub open spec fn spec_expansion_result(res: Response) -> Option<ExpansionResult> {
    match res {
        Response::ExpansionMacro(r) => Some(r),
        _ => None,
    }
}

/// Narrows a response to a listing result; any other shape is refused.
pub fn list_macros_result(res: Response) -> (r: Result<ListMacrosResult, String>)
    ensures
        match spec_list_macros_result(res) {
            Some(v) => r == Ok::<ListMacrosResult, String>(v),
            None => r is Err && r->Err_0@ == shape_mismatch_reason(),
        },
{
    match res {
        Response::ListMacro(v) => Ok(v),
        _ => Err("Fail to convert from response".to_owned()),
    }
}

/// Narrows a response to an expansion result; any other shape is refused.
pub fn expansion_result(res: Response) -> (r: Result<ExpansionResult, String>)
    ensures
        match spec_expansion_result(res) {
            Some(v) => r == Ok::<ExpansionResult, String>(v),
            None => r is Err && r->Err_0@ == shape_mismatch_reason(),
        },
{
    match res {
        Response::ExpansionMacro(v) => Ok(v),
        _ => Err("Fail to convert from response".to_owned()),
    }
}

} // verus!
