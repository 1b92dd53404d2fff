//! What goes to the handler and what comes back, hook by hook.

use crate::hook::Hook;
use vstd::prelude::*;

verus! {

/// The text of an optional string.
pub open spec fn opt_text(s: Option<String>) -> Option<Seq<char>> {
    match s {
        Some(t) => Some(t@),
        None => None,
    }
}

/// A copy of an optional string.
pub fn copy_opt(s: &Option<String>) -> (c: Option<String>)
    ensures
        c == *s,
{
    match s {
        Some(t) => Some(t.clone()),
        None => None,
    }
}

/// A request for a module as resolution sees it. The handler of
/// `beforeResolve` may rewrite request and context, and may end the
/// resolution of this request through `stop`.
#[derive(Debug, Clone, PartialEq, Eq)]
pub struct ResolveData {
    pub request: String,
    pub context: String,
    pub stop: Option<bool>,
}

/// The mathematical content of a [`ResolveData`].
pub ghost struct ResolveModel {
    pub request: Seq<char>,
    pub context: Seq<char>,
    pub stop: Option<bool>,
}

impl View for ResolveData {
    type V = ResolveModel;

    open spec fn view(&self) -> ResolveModel {
        ResolveModel { request: self.request@, context: self.context@, stop: self.stop }
    }
}

impl ResolveData {
    pub fn new(request: String, context: String) -> (d: ResolveData)
        ensures
            d@ == (ResolveModel { request: request@, context: context@, stop: None }),
    {
        ResolveData { request, context, stop: None }
    }

    pub fn copy(&self) -> (d: ResolveData)
        ensures
            d == *self,
    {
        ResolveData {
            request: self.request.clone(),
            context: self.context.clone(),
            stop: self.stop,
        }
    }
}

/// A resource as the scheme resolver describes it.
#[derive(Debug, Clone, PartialEq, Eq)]
pub struct ResourceData {
    pub resource: String,
    pub path: String,
    pub query: Option<String>,
    pub fragment: Option<String>,
}

/// The mathematical content of a [`ResourceData`].
pub ghost struct ResourceModel {
    pub resource: Seq<char>,
    pub path: Seq<char>,
    pub query: Option<Seq<char>>,
    pub fragment: Option<Seq<char>>,
}

impl View for ResourceData {
    type V = ResourceModel;

    open spec fn view(&self) -> ResourceModel {
        ResourceModel {
            resource: self.resource@,
            path: self.path@,
            query: opt_text(self.query),
            fragment: opt_text(self.fragment),
        }
    }
}

impl ResourceData {
    /// A resource with its path, without query or fragment.
    pub fn new(resource: String, path: String) -> (d: ResourceData)
        ensures
            d@ == (ResourceModel {
                resource: resource@,
                path: path@,
                query: None,
                fragment: None,
            }),
    {
        ResourceData { resource, path, query: None, fragment: None }
    }

    /// The same resource with `query` in place of its query.
    pub fn query_optional(self, query: Option<String>) -> (d: ResourceData)
        ensures
            d@ == (ResourceModel { query: opt_text(query), ..self@ }),
    {
        ResourceData {
            resource: self.resource,
            path: self.path,
            query,
            fragment: self.fragment,
        }
    }

    /// The same resource with `fragment` in place of its fragment.
    pub fn fragment_optional(self, fragment: Option<String>) -> (d: ResourceData)
        ensures
            d@ == (ResourceModel { fragment: opt_text(fragment), ..self@ }),
    {
        ResourceData {
            resource: self.resource,
            path: self.path,
            query: self.query,
            fragment,
        }
    }

    pub fn copy(&self) -> (d: ResourceData)
        ensures
            d == *self,
    {
        ResourceData {
            resource: self.resource.clone(),
            path: self.path.clone(),
            query: copy_opt(&self.query),
            fragment: copy_opt(&self.fragment),
        }
    }
}

/// The form of what a hook's handler is given.
#[derive(Debug, Clone, Copy, PartialEq, Eq, Hash, Structural)]
pub enum PayloadShape {
    /// Nothing; the handler reaches what it needs on its own.
    Nothing,
    /// The compilation, lent for the call alone.
    Compilation,
    /// One module, lent for the call alone.
    Module,
    /// A request and its context.
    Resolve,
    /// The description of a resolved module.
    Resolved,
    /// A resource description.
    Resource,
    /// A chunk and one file made from it.
    ChunkAsset,
    /// A file that was written: name, target path, size, details.
    AssetEmitted,
    /// An entry module, the runtime modules and the generated code.
    ExecuteModule,
}

/// The form of what a hook's handler gives back.
#[derive(Debug, Clone, Copy, PartialEq, Eq, Hash, Structural)]
pub enum ReplyShape {
    /// Nothing but success.
    Unit,
    /// An optional yes or no.
    Flag,
    /// The request and context, perhaps rewritten, and an optional stop.
    Resolve,
    /// The resource, perhaps rewritten, and a stop.
    Resource,
    /// An optional output text.
    Output,
}

/// What the handler of a hook is given.
pub open spec fn payload_shape(hook: Hook) -> PayloadShape {
    match hook {
        Hook::Compilation | Hook::ThisCompilation | Hook::ShouldEmit | Hook::OptimizeModules
        | Hook::OptimizeChunkModules | Hook::AfterCompile | Hook::FinishModules
        | Hook::FinishMake => PayloadShape::Compilation,
        Hook::BuildModule | Hook::SucceedModule | Hook::StillValidModule => PayloadShape::Module,
        Hook::BeforeResolve | Hook::ContextModuleBeforeResolve => PayloadShape::Resolve,
        Hook::AfterResolve => PayloadShape::Resolved,
        Hook::NormalModuleFactoryResolveForScheme => PayloadShape::Resource,
        Hook::ChunkAsset => PayloadShape::ChunkAsset,
        Hook::AssetEmitted => PayloadShape::AssetEmitted,
        Hook::ExecuteModule => PayloadShape::ExecuteModule,
        _ => PayloadShape::Nothing,
    }
}

/// What the handler of a hook gives back.
pub open spec fn reply_shape(hook: Hook) -> ReplyShape {
    match hook {
        Hook::BeforeResolve => ReplyShape::Resolve,
        Hook::AfterResolve | Hook::ContextModuleBeforeResolve | Hook::ShouldEmit => ReplyShape::Flag,
        Hook::NormalModuleFactoryResolveForScheme => ReplyShape::Resource,
        Hook::ExecuteModule => ReplyShape::Output,
        _ => ReplyShape::Unit,
    }
}

impl Hook {
    pub fn payload(&self) -> (s: PayloadShape)
        ensures
            s == payload_shape(*self),
    {
        match self {
            Hook::Compilation
            | Hook::ThisCompilation
            | Hook::ShouldEmit
            | Hook::OptimizeModules
            | Hook::OptimizeChunkModules
            | Hook::AfterCompile
            | Hook::FinishModules
            | Hook::FinishMake => PayloadShape::Compilation,
            Hook::BuildModule | Hook::SucceedModule | Hook::StillValidModule => PayloadShape::Module,
            Hook::BeforeResolve | Hook::ContextModuleBeforeResolve => PayloadShape::Resolve,
            Hook::AfterResolve => PayloadShape::Resolved,
            Hook::NormalModuleFactoryResolveForScheme => PayloadShape::Resource,
            Hook::ChunkAsset => PayloadShape::ChunkAsset,
            Hook::AssetEmitted => PayloadShape::AssetEmitted,
            Hook::ExecuteModule => PayloadShape::ExecuteModule,
            _ => PayloadShape::Nothing,
        }
    }

    pub fn reply(&self) -> (s: ReplyShape)
        ensures
            s == reply_shape(*self),
    {
        match self {
            Hook::BeforeResolve => ReplyShape::Resolve,
            Hook::AfterResolve | Hook::ContextModuleBeforeResolve | Hook::ShouldEmit => {
                ReplyShape::Flag
            },
            Hook::NormalModuleFactoryResolveForScheme => ReplyShape::Resource,
            Hook::ExecuteModule => ReplyShape::Output,
            _ => ReplyShape::Unit,
        }
    }
}

/// What a handler gave back.
#[derive(Debug, Clone, PartialEq, Eq)]
pub enum Reply {
    Unit,
    Flag(Option<bool>),
    Resolve(ResolveData),
    Resource(ResourceData, bool),
    Output(Option<String>),
}

/// The mathematical content of a [`Reply`].
pub ghost enum ReplyModel {
    Unit,
    Flag(Option<bool>),
    Resolve(ResolveModel),
    Resource(ResourceModel, bool),
    Output(Option<Seq<char>>),
}

impl View for Reply {
    type V = ReplyModel;

    open spec fn view(&self) -> ReplyModel {
        match *self {
            Reply::Unit => ReplyModel::Unit,
            Reply::Flag(b) => ReplyModel::Flag(b),
            Reply::Resolve(d) => ReplyModel::Resolve(d@),
            Reply::Resource(d, stop) => ReplyModel::Resource(d@, stop),
            Reply::Output(s) => ReplyModel::Output(opt_text(s)),
        }
    }
}

impl ReplyModel {
    pub open spec fn shape(self) -> ReplyShape {
        match self {
            ReplyModel::Unit => ReplyShape::Unit,
            ReplyModel::Flag(_) => ReplyShape::Flag,
            ReplyModel::Resolve(_) => ReplyShape::Resolve,
            ReplyModel::Resource(_, _) => ReplyShape::Resource,
            ReplyModel::Output(_) => ReplyShape::Output,
        }
    }
}

impl Reply {
    pub fn shape(&self) -> (s: ReplyShape)
        ensures
            s == self@.shape(),
    {
        match self {
            Reply::Unit => ReplyShape::Unit,
            Reply::Flag(_) => ReplyShape::Flag,
            Reply::Resolve(_) => ReplyShape::Resolve,
            Reply::Resource(_, _) => ReplyShape::Resource,
            Reply::Output(_) => ReplyShape::Output,
        }
    }
}

/// Why a call of a handler gave no usable answer.
#[derive(Debug, Clone, Copy, PartialEq, Eq, Hash, Structural)]
pub enum FailureKind {
    /// The handler's runtime could not be reached, or the call not delivered.
    Transport,
    /// The handler ran and reported an error.
    Handler,
    /// The answer has not the form that the hook's answers have.
    Malformed,
    /// What the handler was to be given could not be put together.
    ViewConstruction,
}

/// A failed call, tagged with the hook it was made for.
#[derive(Debug, Clone, PartialEq, Eq)]
pub struct HookError {
    pub hook: Hook,
    pub kind: FailureKind,
    pub detail: String,
}

/// The mathematical content of a [`HookError`].
pub ghost struct HookErrorModel {
    pub hook: Hook,
    pub kind: FailureKind,
    pub detail: Seq<char>,
}

impl View for HookError {
    type V = HookErrorModel;

    open spec fn view(&self) -> HookErrorModel {
        HookErrorModel { hook: self.hook, kind: self.kind, detail: self.detail@ }
    }
}

/// How a call of a handler ended.
#[derive(Debug, Clone, PartialEq, Eq)]
pub enum Event {
    /// The handler answered.
    Returned(Reply),
    /// The call failed; the text says how.
    Failed(FailureKind, String),
}

/// The mathematical content of an [`Event`].
pub ghost enum EventModel {
    Returned(ReplyModel),
    Failed(FailureKind, Seq<char>),
}

impl View for Event {
    type V = EventModel;

    open spec fn view(&self) -> EventModel {
        match *self {
            Event::Returned(r) => EventModel::Returned(r@),
            Event::Failed(kind, detail) => EventModel::Failed(kind, detail@),
        }
    }
}

} // verus!
