//! The messages that travel through the compilation queue.

use lsp_types::Url;
use vstd::prelude::*;

verus! {

/// `lsp_types::Url`, the address of a document. The crate only carries such a value
/// from a request to the caller that performs the compile; nothing is assumed of
/// what it holds.
#[verifier::external_type_specification]
#[verifier::external_body]
pub struct ExUrl(Url);

/// Everything the compilation worker needs to know about one compile request.
///
/// `S` is the handle through which the caller reaches the session of the project
/// that the document belongs to.
#[derive(Debug)]
pub struct CompilationContext<S> {
    pub session: Option<S>,
    pub uri: Option<Url>,
    pub version: Option<i32>,
}

/// What can be sent to the compilation worker.
#[derive(Debug)]
pub enum TaskMessage<S> {
    /// A request to compile.
    CompilationContext(CompilationContext<S>),
    /// A signal to the worker to end its loop for good.
    Terminate,
}

/// Garbage collection of the engines is costly, so it is due only on every tenth
/// version of a document: when a version is given and it is a non-negative
/// multiple of ten.
pub open spec fn gc_due(version: Option<i32>) -> bool {
    match version {
        Some(v) => v >= 0 && v % 10 == 0,
        None => false,
    }
}

/// Garbage collection is due for every tenth version and for no other: among the
/// versions from zero on, exactly for the multiples of ten. So it is not due for any
/// of the versions 1 to 9, and it is due for version 10.
pub proof fn law_collection_every_tenth_version(version: i32)
    requires
        version >= 0,
    ensures
        gc_due(Some(version)) <==> version % 10 == 0,
        1 <= version <= 9 ==> !gc_due(Some(version)),
        version == 10 ==> gc_due(Some(version)),
        !gc_due(None),
{
}

impl<S> CompilationContext<S> {
    /// A request can be compiled only if it names both its session and its document.
    pub open spec fn is_complete(&self) -> bool {
        self.session is Some && self.uri is Some
    }

    /// A request for `uri` at `version`, to be compiled in `session`.
    pub fn new(session: S, uri: Url, version: Option<i32>) -> (ctx: Self)
        ensures
            ctx.session == Some(session),
            ctx.uri == Some(uri),
            ctx.version == version,
            ctx.is_complete(),
    {
        CompilationContext { session: Some(session), uri: Some(uri), version }
    }

    /// Whether the request names both its session and its document.
    pub fn complete(&self) -> (b: bool)
        ensures
            b == self.is_complete(),
    {
        self.session.is_some() && self.uri.is_some()
    }

    /// Whether the engines are to be garbage collected before this request is parsed.
    pub fn needs_garbage_collection(&self) -> (due: bool)
        ensures
            due == gc_due(self.version),
    {
        match self.version {
            Some(v) => v >= 0 && v % 10 == 0,
            None => false,
        }
    }
}

impl<S> Default for CompilationContext<S> {
    /// The empty request: no session, no document, no version.
    fn default() -> (ctx: Self)
        ensures
            ctx.session is None,
            ctx.uri is None,
            ctx.version is None,
    {
        CompilationContext { session: None, uri: None, version: None }
    }
}

} // verus!
