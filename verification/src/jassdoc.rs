//! The decoded shapes of the documentation service's two replies.
//!
//! The JSON transport that fills these values is a collaborator; the pipeline
//! only works on the decoded fields.

use vstd::prelude::*;

verus! {

/// How the native-search service read the query.
pub struct QueryParsed {
    pub contents: String,
    pub tag: String,
}

/// A successful native-search reply: matching signatures in service order.
pub struct NativeResponse {
    pub query_parsed: QueryParsed,
    pub results: Vec<String>,
}

/// A named metadata tag attached to a documented entity.
pub struct Annotation {
    pub name: String,
    pub value: String,
}

/// A documented entity's parameter; `doc` is absent when the parameter is
/// undocumented.
pub struct Parameter {
    pub doc: Option<String>,
    pub name: String,
    pub type_: String,
}

/// A successful documentation-lookup reply.
pub struct DocResponse {
    pub annotations: Vec<Annotation>,
    pub commit: String,
    pub kind: String,
    pub linenumber: String,
    pub parameters: Vec<Parameter>,
}

} // verus!
