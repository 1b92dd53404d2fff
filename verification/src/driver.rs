//! The driver of a build: it walks the steps in their fixed order, passes
//! over the hooks that are switched off, says which call or which work is due
//! next, and reads each answer.
//!
//! The driver makes no call and does no work itself. The embedding program
//! asks it what is due, does that, and reports back: [`Driver::resume`] with
//! the outcome of a call, [`Driver::advance`] when work of the build is done.
//! One thing is due at a time, so what is lent to a handler for a call is
//! lent to that call alone.

use crate::adapter::malformed;
use crate::adapter::JsHooksAdapter;
use crate::contract::payload_shape;
use crate::contract::reply_shape;
use crate::contract::Event;
use crate::contract::EventModel;
use crate::contract::FailureKind;
use crate::contract::HookError;
use crate::contract::HookErrorModel;
use crate::contract::PayloadShape;
use crate::contract::Reply;
use crate::contract::ReplyModel;
use crate::contract::ResolveData;
use crate::contract::ResolveModel;
use crate::contract::ResourceData;
use crate::contract::ResourceModel;
use crate::disabled::DisabledHooks;
use crate::hook::CallMode;
use crate::hook::Hook;
use crate::sequence::Plan;
use crate::sequence::PlanModel;
use crate::sequence::RequestKind;
use crate::sequence::Step;
use vstd::prelude::*;

verus! {

/// Where a build stands.
pub ghost struct State {
    /// The step that is due.
    pub step: Step,
    /// Request and context of the module in work, as they are now.
    pub resolve: ResolveModel,
    /// What the scheme resolver made of the module in work, if it was asked.
    pub resource: Option<(ResourceModel, bool)>,
    /// The number of files written.
    pub emitted: nat,
    /// The error that ended the build, if one did.
    pub failure: Option<HookErrorModel>,
}

/// What a handler is given.
pub ghost enum PayloadModel {
    Nothing,
    Compilation,
    Module(usize),
    Resolve(ResolveModel),
    Resolved(usize, ResolveModel),
    Resource(ResourceModel),
    ChunkAsset(usize),
    AssetEmitted(usize),
    ExecuteModule { entry: Seq<char>, runtime_modules: Seq<Seq<char>> },
}

impl PayloadModel {
    /// The form of the payload.
    pub open spec fn shape(self) -> PayloadShape {
        match self {
            PayloadModel::Nothing => PayloadShape::Nothing,
            PayloadModel::Compilation => PayloadShape::Compilation,
            PayloadModel::Module(_) => PayloadShape::Module,
            PayloadModel::Resolve(_) => PayloadShape::Resolve,
            PayloadModel::Resolved(_, _) => PayloadShape::Resolved,
            PayloadModel::Resource(_) => PayloadShape::Resource,
            PayloadModel::ChunkAsset(_) => PayloadShape::ChunkAsset,
            PayloadModel::AssetEmitted(_) => PayloadShape::AssetEmitted,
            PayloadModel::ExecuteModule { .. } => PayloadShape::ExecuteModule,
        }
    }
}

/// What is due.
pub ghost enum ActionModel {
    /// Call the handler of `hook` with `payload`, waiting as `mode` says.
    Dispatch { hook: Hook, mode: CallMode, payload: PayloadModel },
    /// Resolve module `module` from `data`.
    Resolve { module: usize, data: ResolveModel, resource: Option<(ResourceModel, bool)> },
    /// Write file `asset`.
    WriteAsset { asset: usize },
    /// Nothing: the build is through, with `emitted` files written.
    Finished { emitted: nat },
    /// Nothing: the build was given up.
    Failed(HookErrorModel),
}

/// The state in which a build begins, before hooks that are switched off
/// are passed over.
pub open spec fn initial() -> State {
    State {
        step: Step::Make,
        resolve: ResolveModel { request: Seq::empty(), context: Seq::empty(), stop: None },
        resource: None,
        emitted: 0,
        failure: None,
    }
}

impl PlanModel {
    /// Request and context of module `m` as the plan has them.
    pub open spec fn request_of(self, m: usize) -> ResolveModel {
        ResolveModel {
            request: self.modules[m as int].request,
            context: self.modules[m as int].context,
            stop: None,
        }
    }

    /// Whether the build is over in `s`: through, or given up.
    pub open spec fn over(self, s: State) -> bool {
        s.failure is Some || s.step == Step::Done
    }

    /// Whether the count of written files fits the step that is due.
    pub open spec fn counted(self, s: State) -> bool {
        match s.step {
            Step::WriteAsset(a) => s.emitted == a,
            Step::AssetEmitted(a) => s.emitted == a + 1,
            Step::AfterEmit => s.emitted == self.assets,
            Step::Done => s.emitted == self.assets || s.emitted == 0,
            _ => s.emitted == 0,
        }
    }

    /// Whether `s` is a state of a build of this plan. A build is given up
    /// only at a step that raises a hook.
    pub open spec fn sound(self, s: State) -> bool {
        &&& self.bounded()
        &&& self.has(s.step)
        &&& self.counted(s)
        &&& s.failure is Some ==> self.hook_at(s.step) is Some
    }

    /// What the handler is given at the step that is due.
    pub open spec fn payload_at(self, s: State) -> PayloadModel {
        match s.step {
            Step::BeforeResolve(m) => PayloadModel::Resolve(self.request_of(m)),
            Step::ResolveForScheme(_) => PayloadModel::Resource(
                ResourceModel {
                    resource: s.resolve.request,
                    path: Seq::empty(),
                    query: None,
                    fragment: None,
                },
            ),
            Step::AfterResolve(m) => PayloadModel::Resolved(m, s.resolve),
            Step::BuildModule(m) | Step::ModuleDone(m) => PayloadModel::Module(m),
            Step::ChunkAsset(c) => PayloadModel::ChunkAsset(c),
            Step::AssetEmitted(a) => PayloadModel::AssetEmitted(a),
            Step::FinishModules
            | Step::FinishMake
            | Step::ThisCompilation
            | Step::Compilation
            | Step::OptimizeModules
            | Step::OptimizeChunkModules
            | Step::AfterCompile
            | Step::ShouldEmit => PayloadModel::Compilation,
            _ => PayloadModel::Nothing,
        }
    }

    /// The answer that stands for a handler that is not called: nothing, no
    /// yes or no, nothing rewritten.
    pub open spec fn default_reply(self, s: State) -> ReplyModel {
        match s.step {
            Step::BeforeResolve(m) => if self.modules[m as int].kind == RequestKind::Context {
                ReplyModel::Flag(None)
            } else {
                ReplyModel::Resolve(self.request_of(m))
            },
            Step::ResolveForScheme(_) => ReplyModel::Resource(
                ResourceModel {
                    resource: s.resolve.request,
                    path: Seq::empty(),
                    query: None,
                    fragment: None,
                },
                false,
            ),
            Step::AfterResolve(_) | Step::ShouldEmit => ReplyModel::Flag(None),
            _ => ReplyModel::Unit,
        }
    }

    /// The state after the handler of the due step answered `reply`. Two
    /// answers steer the build: a stop before a module is resolved ends the
    /// work on that module, with request and context as the handler left
    /// them; a no to emitting ends the build with nothing written.
    pub open spec fn after_reply(self, s: State, reply: ReplyModel) -> State {
        match s.step {
            Step::BeforeResolve(m) => {
                let data = match reply {
                    ReplyModel::Resolve(d) => d,
                    ReplyModel::Flag(b) => ResolveModel { stop: b, ..self.request_of(m) },
                    _ => self.request_of(m),
                };
                State {
                    step: if data.stop == Some(true) {
                        self.module_entry(m as nat + 1)
                    } else {
                        self.successor(s.step)
                    },
                    resolve: data,
                    resource: None,
                    ..s
                }
            },
            Step::ResolveForScheme(_) => State {
                step: self.successor(s.step),
                resource: match reply {
                    ReplyModel::Resource(d, stop) => Some((d, stop)),
                    _ => None,
                },
                ..s
            },
            Step::ShouldEmit => State {
                step: if reply == ReplyModel::Flag(Some(false)) {
                    Step::Done
                } else {
                    Step::Emit
                },
                ..s
            },
            _ => State { step: self.successor(s.step), ..s },
        }
    }

    /// The state after the build did the work of the due step.
    pub open spec fn after_work(self, s: State) -> State {
        match s.step {
            Step::WriteAsset(_) => State {
                step: self.successor(s.step),
                emitted: s.emitted + 1,
                ..s
            },
            _ => State { step: self.successor(s.step), ..s },
        }
    }

    /// Whether the driver can rest in `s`: the build is over, or work of the
    /// build is due, or a hook that is not switched off.
    pub open spec fn resting(self, disabled: Set<Hook>, s: State) -> bool {
        self.over(s) || match self.hook_at(s.step) {
            Some(h) => !disabled.contains(h),
            None => true,
        }
    }

    /// The state in which the driver rests, from `s` on: each hook that is
    /// switched off is passed over as if its handler had given the default
    /// answer.
    pub open spec fn settle(self, disabled: Set<Hook>, s: State) -> State
        decreases self.remaining(s.step),
        when self.bounded() && self.has(s.step)
    {
        if self.resting(disabled, s) {
            s
        } else {
            self.settle(disabled, self.after_reply(s, self.default_reply(s)))
        }
    }

    /// What the outcome of the call that is due in `s` amounts to: the
    /// answer, or the error, which names the hook. An answer of the wrong
    /// form is an error.
    pub open spec fn judged(self, s: State, event: EventModel) -> Result<
        ReplyModel,
        HookErrorModel,
    > {
        let h = self.hook_at(s.step)->Some_0;
        match event {
            EventModel::Returned(reply) => if reply.shape() == reply_shape(h) {
                Ok(reply)
            } else {
                Err(malformed(h))
            },
            EventModel::Failed(kind, detail) => Err(HookErrorModel { hook: h, kind, detail }),
        }
    }

    /// The state after `event` came in. An outcome that no call waits for is
    /// dropped. A failed call ends the build with an error that names the
    /// hook, and so does an answer of the wrong form.
    pub open spec fn on_event(self, disabled: Set<Hook>, s: State, event: EventModel) -> State {
        if self.over(s) || self.hook_at(s.step) is None {
            s
        } else {
            match self.judged(s, event) {
                Ok(reply) => self.settle(disabled, self.after_reply(s, reply)),
                Err(e) => State { failure: Some(e), ..s },
            }
        }
    }

    /// The state after the build reported its work done. The report is
    /// dropped where no work of the build is due.
    pub open spec fn on_advance(self, disabled: Set<Hook>, s: State) -> State {
        if self.over(s) || self.hook_at(s.step) is Some {
            s
        } else {
            self.settle(disabled, self.after_work(s))
        }
    }

    /// What is due in `s`.
    pub open spec fn action_at(self, s: State) -> ActionModel {
        if s.failure is Some {
            ActionModel::Failed(s.failure->Some_0)
        } else {
            match s.step {
                Step::Done => ActionModel::Finished { emitted: s.emitted },
                Step::Resolve(m) => ActionModel::Resolve {
                    module: m,
                    data: s.resolve,
                    resource: s.resource,
                },
                Step::WriteAsset(a) => ActionModel::WriteAsset { asset: a },
                _ => ActionModel::Dispatch {
                    hook: self.hook_at(s.step)->Some_0,
                    mode: self.hook_at(s.step)->Some_0.mode(),
                    payload: self.payload_at(s),
                },
            }
        }
    }
}

/// What a handler is given. A compilation or a module is lent to the handler
/// for the one call; what the handler changes through it is there when the
/// call is over.
#[derive(Debug, Clone, PartialEq, Eq)]
pub enum Payload {
    Nothing,
    /// The compilation.
    Compilation,
    /// The module with this number in the plan.
    Module(usize),
    Resolve(ResolveData),
    /// The module with this number, resolved from this request and context.
    Resolved(usize, ResolveData),
    Resource(ResourceData),
    /// The pairing with this number.
    ChunkAsset(usize),
    /// The file with this number.
    AssetEmitted(usize),
    /// The module to run and the runtime modules it needs; the generated
    /// code is reached through the compilation.
    ExecuteModule { entry: String, runtime_modules: Vec<String> },
}

impl View for Payload {
    type V = PayloadModel;

    open spec fn view(&self) -> PayloadModel {
        match *self {
            Payload::Nothing => PayloadModel::Nothing,
            Payload::Compilation => PayloadModel::Compilation,
            Payload::Module(m) => PayloadModel::Module(m),
            Payload::Resolve(d) => PayloadModel::Resolve(d@),
            Payload::Resolved(m, d) => PayloadModel::Resolved(m, d@),
            Payload::Resource(d) => PayloadModel::Resource(d@),
            Payload::ChunkAsset(c) => PayloadModel::ChunkAsset(c),
            Payload::AssetEmitted(a) => PayloadModel::AssetEmitted(a),
            Payload::ExecuteModule { entry, runtime_modules } => PayloadModel::ExecuteModule {
                entry: entry@,
                runtime_modules: Seq::new(runtime_modules@.len(), |i: int| runtime_modules@[i]@),
            },
        }
    }
}

impl Payload {
    pub fn shape(&self) -> (s: PayloadShape)
        ensures
            s == self@.shape(),
    {
        match self {
            Payload::Nothing => PayloadShape::Nothing,
            Payload::Compilation => PayloadShape::Compilation,
            Payload::Module(_) => PayloadShape::Module,
            Payload::Resolve(_) => PayloadShape::Resolve,
            Payload::Resolved(_, _) => PayloadShape::Resolved,
            Payload::Resource(_) => PayloadShape::Resource,
            Payload::ChunkAsset(_) => PayloadShape::ChunkAsset,
            Payload::AssetEmitted(_) => PayloadShape::AssetEmitted,
            Payload::ExecuteModule { .. } => PayloadShape::ExecuteModule,
        }
    }
}

/// The content of what the scheme resolver made of a module.
pub open spec fn scheme_view(r: Option<(ResourceData, bool)>) -> Option<(ResourceModel, bool)> {
    match r {
        Some((d, stop)) => Some((d@, stop)),
        None => None,
    }
}

/// The content of an optional error.
pub open spec fn failure_view(e: Option<HookError>) -> Option<HookErrorModel> {
    match e {
        Some(e) => Some(e@),
        None => None,
    }
}

/// What is due: a call, work of the build, or nothing any more.
#[derive(Debug, Clone, PartialEq, Eq)]
pub enum Action {
    /// Call the handler of `hook` with `payload`, waiting as `mode` says, and
    /// report the outcome with [`Driver::resume`].
    Dispatch { hook: Hook, mode: CallMode, payload: Payload },
    /// Resolve module `module` from `data`, and report with [`Driver::advance`].
    Resolve { module: usize, data: ResolveData, resource: Option<(ResourceData, bool)> },
    /// Write file `asset`, and report with [`Driver::advance`].
    WriteAsset { asset: usize },
    /// The build is through, with `emitted` files written.
    Finished { emitted: usize },
    /// The build was given up.
    Failed(HookError),
}

impl View for Action {
    type V = ActionModel;

    open spec fn view(&self) -> ActionModel {
        match *self {
            Action::Dispatch { hook, mode, payload } => ActionModel::Dispatch {
                hook,
                mode,
                payload: payload@,
            },
            Action::Resolve { module, data, resource } => ActionModel::Resolve {
                module,
                data: data@,
                resource: scheme_view(resource),
            },
            Action::WriteAsset { asset } => ActionModel::WriteAsset { asset },
            Action::Finished { emitted } => ActionModel::Finished { emitted: emitted as nat },
            Action::Failed(e) => ActionModel::Failed(e@),
        }
    }
}

/// The driver of one build.
#[derive(Debug)]
pub struct Driver {
    adapter: JsHooksAdapter,
    plan: Plan,
    step: Step,
    resolve: ResolveData,
    resource: Option<(ResourceData, bool)>,
    emitted: usize,
    failure: Option<HookError>,
}

impl View for Driver {
    type V = State;

    closed spec fn view(&self) -> State {
        State {
            step: self.step,
            resolve: self.resolve@,
            resource: scheme_view(self.resource),
            emitted: self.emitted as nat,
            failure: failure_view(self.failure),
        }
    }
}

fn copy_scheme(r: &Option<(ResourceData, bool)>) -> (c: Option<(ResourceData, bool)>)
    ensures
        c == *r,
{
    match r {
        Some((d, stop)) => Some((d.copy(), *stop)),
        None => None,
    }
}

fn copy_error(e: &HookError) -> (c: HookError)
    ensures
        c == *e,
{
    HookError { hook: e.hook, kind: e.kind, detail: e.detail.clone() }
}

impl Driver {
    /// The plan of the build.
    pub closed spec fn plan(&self) -> PlanModel {
        self.plan@
    }

    /// The hooks that are switched off for the build.
    pub closed spec fn disabled(&self) -> Set<Hook> {
        self.adapter.disabled()
    }

    /// Whether the driver is in order: it rests in a state of its build.
    pub closed spec fn wf(&self) -> bool {
        self.plan().sound(self@) && self.plan().resting(self.disabled(), self@)
    }

    /// A driver for a build of `plan`, with the hooks of `disabled` switched
    /// off for the whole build. It rests at the first step that is due.
    pub fn new(plan: Plan, disabled: DisabledHooks) -> (d: Driver)
        ensures
            d.wf(),
            d.plan() == plan@,
            d.disabled() == disabled@,
            d@ == plan@.settle(disabled@, initial()),
    {
        let modules: usize = plan.modules.len();
        assert(plan@.modules.len() == modules <= usize::MAX);
        let mut d = Driver {
            adapter: JsHooksAdapter::new(disabled),
            plan,
            step: Step::Make,
            resolve: ResolveData::new(String::from_str(""), String::from_str("")),
            resource: None,
            emitted: 0,
            failure: None,
        };
        proof {
            reveal_strlit("");
            assert(d.resolve@.request =~= Seq::<char>::empty());
            assert(d.resolve@.context =~= Seq::<char>::empty());
            assert(d@ == initial());
        }
        d.settle();
        d
    }

    /// The hook of the step that is due, if a hook is raised there.
    fn hook_here(&self) -> (h: Option<Hook>)
        requires
            self.plan().has(self@.step),
        ensures
            h == self.plan().hook_at(self@.step),
    {
        match self.step {
            Step::Make => Some(Hook::Make),
            Step::BeforeResolve(m) => {
                match self.plan.modules[m].kind {
                    RequestKind::Context => Some(Hook::ContextModuleBeforeResolve),
                    RequestKind::Normal => Some(Hook::BeforeResolve),
                }
            },
            Step::ResolveForScheme(_) => Some(Hook::NormalModuleFactoryResolveForScheme),
            Step::Resolve(_) => None,
            Step::AfterResolve(_) => Some(Hook::AfterResolve),
            Step::BuildModule(_) => Some(Hook::BuildModule),
            Step::ModuleDone(m) => {
                if self.plan.modules[m].cached {
                    Some(Hook::StillValidModule)
                } else {
                    Some(Hook::SucceedModule)
                }
            },
            Step::FinishModules => Some(Hook::FinishModules),
            Step::FinishMake => Some(Hook::FinishMake),
            Step::ThisCompilation => Some(Hook::ThisCompilation),
            Step::Compilation => Some(Hook::Compilation),
            Step::OptimizeModules => Some(Hook::OptimizeModules),
            Step::OptimizeTree => Some(Hook::OptimizeTree),
            Step::OptimizeChunkModules => Some(Hook::OptimizeChunkModules),
            Step::ChunkAsset(_) => Some(Hook::ChunkAsset),
            Step::BeforeCompile => Some(Hook::BeforeCompile),
            Step::AfterCompile => Some(Hook::AfterCompile),
            Step::ShouldEmit => Some(Hook::ShouldEmit),
            Step::Emit => Some(Hook::Emit),
            Step::ProcessAssets(s) => Some(s.hook()),
            Step::WriteAsset(_) => None,
            Step::AssetEmitted(_) => Some(Hook::AssetEmitted),
            Step::AfterEmit => Some(Hook::AfterEmit),
            Step::Done => None,
        }
    }

    /// The first step of module `m`, or what follows the modules.
    fn module_entry(&self, m: usize) -> (s: Step)
        ensures
            s == self.plan().module_entry(m as nat),
    {
        if m < self.plan.modules.len() {
            Step::BeforeResolve(m)
        } else {
            Step::FinishModules
        }
    }

    /// The step that follows the due step in the plain course of the build.
    fn successor(&self) -> (s: Step)
        requires
            self.plan().bounded(),
            self.plan().has(self@.step),
        ensures
            s == self.plan().successor(self@.step),
    {
        match self.step {
            Step::Make => self.module_entry(0),
            Step::BeforeResolve(m) => {
                if self.plan.modules[m].scheme {
                    Step::ResolveForScheme(m)
                } else {
                    Step::Resolve(m)
                }
            },
            Step::ResolveForScheme(m) => Step::Resolve(m),
            Step::Resolve(m) => Step::AfterResolve(m),
            Step::AfterResolve(m) => {
                if self.plan.modules[m].cached {
                    Step::ModuleDone(m)
                } else {
                    Step::BuildModule(m)
                }
            },
            Step::BuildModule(m) => Step::ModuleDone(m),
            Step::ModuleDone(m) => self.module_entry(m + 1),
            Step::FinishModules => Step::FinishMake,
            Step::FinishMake => Step::ThisCompilation,
            Step::ThisCompilation => Step::Compilation,
            Step::Compilation => Step::OptimizeModules,
            Step::OptimizeModules => Step::OptimizeTree,
            Step::OptimizeTree => Step::OptimizeChunkModules,
            Step::OptimizeChunkModules => {
                if 0 < self.plan.chunk_assets {
                    Step::ChunkAsset(0)
                } else {
                    Step::BeforeCompile
                }
            },
            Step::ChunkAsset(c) => {
                if c + 1 < self.plan.chunk_assets {
                    Step::ChunkAsset(c + 1)
                } else {
                    Step::BeforeCompile
                }
            },
            Step::BeforeCompile => Step::AfterCompile,
            Step::AfterCompile => Step::ShouldEmit,
            Step::ShouldEmit => Step::Emit,
            Step::Emit => Step::ProcessAssets(crate::stage::ProcessAssetsStage::first()),
            Step::ProcessAssets(s) => {
                match s.next() {
                    Some(t) => Step::ProcessAssets(t),
                    None => {
                        if 0 < self.plan.assets {
                            Step::WriteAsset(0)
                        } else {
                            Step::AfterEmit
                        }
                    },
                }
            },
            Step::WriteAsset(a) => Step::AssetEmitted(a),
            Step::AssetEmitted(a) => {
                if a + 1 < self.plan.assets {
                    Step::WriteAsset(a + 1)
                } else {
                    Step::AfterEmit
                }
            },
            Step::AfterEmit => Step::Done,
            Step::Done => Step::Done,
        }
    }

    /// Request and context of module `m` as the plan has them.
    fn request_of(&self, m: usize) -> (d: ResolveData)
        requires
            m < self.plan().modules.len(),
        ensures
            d@ == self.plan().request_of(m),
    {
        ResolveData::new(self.plan.modules[m].request.clone(), self.plan.modules[m].context.clone())
    }

    /// The resource that the scheme resolver is asked about: the request as
    /// it is now, with no path yet.
    fn resource_here(&self) -> (d: ResourceData)
        ensures
            d@ == (ResourceModel {
                resource: self@.resolve.request,
                path: Seq::empty(),
                query: None,
                fragment: None,
            }),
    {
        let d = ResourceData::new(self.resolve.request.clone(), String::from_str(""));
        proof {
            reveal_strlit("");
            assert(d.path@ =~= Seq::<char>::empty());
        }
        d
    }

    /// The answer that stands for a handler that is not called.
    fn default_reply(&self) -> (r: Reply)
        requires
            self.plan().has(self@.step),
        ensures
            r@ == self.plan().default_reply(self@),
    {
        match self.step {
            Step::BeforeResolve(m) => {
                match self.plan.modules[m].kind {
                    RequestKind::Context => Reply::Flag(None),
                    RequestKind::Normal => Reply::Resolve(self.request_of(m)),
                }
            },
            Step::ResolveForScheme(_) => Reply::Resource(self.resource_here(), false),
            Step::AfterResolve(_) | Step::ShouldEmit => Reply::Flag(None),
            _ => Reply::Unit,
        }
    }

    /// Takes the answer of the handler of the due step and moves on.
    fn apply_reply(&mut self, reply: Reply)
        requires
            old(self).plan().sound(old(self)@),
            old(self).plan().hook_at(old(self)@.step) is Some,
        ensures
            final(self)@ == old(self).plan().after_reply(old(self)@, reply@),
            final(self).plan() == old(self).plan(),
            final(self).disabled() == old(self).disabled(),
    {
        match self.step {
            Step::BeforeResolve(m) => {
                let data = match reply {
                    Reply::Resolve(d) => d,
                    Reply::Flag(b) => {
                        let mut d = self.request_of(m);
                        d.stop = b;
                        d
                    },
                    _ => self.request_of(m),
                };
                let next = match data.stop {
                    Some(true) => self.module_entry(m + 1),
                    _ => self.successor(),
                };
                self.step = next;
                self.resolve = data;
                self.resource = None;
            },
            Step::ResolveForScheme(_) => {
                let next = self.successor();
                self.step = next;
                self.resource = match reply {
                    Reply::Resource(d, stop) => Some((d, stop)),
                    _ => None,
                };
            },
            Step::ShouldEmit => {
                self.step = match reply {
                    Reply::Flag(Some(false)) => Step::Done,
                    _ => Step::Emit,
                };
            },
            _ => {
                let next = self.successor();
                self.step = next;
            },
        }
    }

    /// Passes over the hooks that are switched off, up to the next step at
    /// which the driver can rest.
    fn settle(&mut self)
        requires
            old(self).plan().sound(old(self)@),
        ensures
            final(self)@ == old(self).plan().settle(old(self).disabled(), old(self)@),
            final(self).plan() == old(self).plan(),
            final(self).disabled() == old(self).disabled(),
            final(self).wf(),
    {
        let ghost plan = self.plan();
        let ghost disabled = self.disabled();
        let ghost start = self@;
        loop
            invariant
                self.plan() == plan,
                self.disabled() == disabled,
                plan.sound(self@),
                plan.settle(disabled, self@) == plan.settle(disabled, start),
            ensures
                plan.resting(disabled, self@),
            decreases plan.remaining(self@.step),
        {
            if self.failure.is_some() {
                break ;
            }
            let h = match self.hook_here() {
                Some(h) => h,
                None => {
                    break ;
                },
            };
            if !self.adapter.is_hook_disabled(&h) {
                break ;
            }
            let reply = self.default_reply();
            proof {
                lemma_after_reply_advances(plan, self@, reply@);
            }
            self.apply_reply(reply);
        }
        proof {
            lemma_settle(plan, disabled, self@);
        }
    }

    /// What the handler is given at the due step.
    fn payload_here(&self) -> (p: Payload)
        requires
            self.plan().has(self@.step),
        ensures
            p@ == self.plan().payload_at(self@),
    {
        match self.step {
            Step::BeforeResolve(m) => Payload::Resolve(self.request_of(m)),
            Step::ResolveForScheme(_) => Payload::Resource(self.resource_here()),
            Step::AfterResolve(m) => Payload::Resolved(m, self.resolve.copy()),
            Step::BuildModule(m) | Step::ModuleDone(m) => Payload::Module(m),
            Step::ChunkAsset(c) => Payload::ChunkAsset(c),
            Step::AssetEmitted(a) => Payload::AssetEmitted(a),
            Step::FinishModules
            | Step::FinishMake
            | Step::ThisCompilation
            | Step::Compilation
            | Step::OptimizeModules
            | Step::OptimizeChunkModules
            | Step::AfterCompile
            | Step::ShouldEmit => Payload::Compilation,
            _ => Payload::Nothing,
        }
    }

    /// What is due now. Asking changes nothing.
    pub fn current(&self) -> (a: Action)
        requires
            self.wf(),
        ensures
            a@ == self.plan().action_at(self@),
            a matches Action::Dispatch { hook, .. } ==> !self.disabled().contains(hook),
    {
        if let Some(e) = &self.failure {
            return Action::Failed(copy_error(e));
        }
        match self.hook_here() {
            Some(hook) => Action::Dispatch {
                hook,
                mode: hook.call_mode(),
                payload: self.payload_here(),
            },
            None => match self.step {
                Step::Resolve(m) => Action::Resolve {
                    module: m,
                    data: self.resolve.copy(),
                    resource: copy_scheme(&self.resource),
                },
                Step::WriteAsset(a) => Action::WriteAsset { asset: a },
                _ => Action::Finished { emitted: self.emitted },
            },
        }
    }

    /// Takes the outcome of the call that is due and says what is due next.
    /// Where no call is due the outcome is dropped and nothing changes.
    pub fn resume(&mut self, event: Event) -> (a: Action)
        requires
            old(self).wf(),
        ensures
            final(self).wf(),
            final(self).plan() == old(self).plan(),
            final(self).disabled() == old(self).disabled(),
            final(self)@ == old(self).plan().on_event(old(self).disabled(), old(self)@, event@),
            a@ == final(self).plan().action_at(final(self)@),
            a matches Action::Dispatch { hook, .. } ==> !final(self).disabled().contains(hook),
    {
        if self.failure.is_none() {
            match self.hook_here() {
                None => {},
                Some(h) => {
                    match event {
                        Event::Returned(reply) => {
                            if reply.shape() == h.reply() {
                                proof {
                                    lemma_after_reply_advances(self.plan(), self@, reply@);
                                }
                                self.apply_reply(reply);
                                self.settle();
                            } else {
                                self.failure = Some(
                                    HookError {
                                        hook: h,
                                        kind: FailureKind::Malformed,
                                        detail: String::from_str("malformed answer"),
                                    },
                                );
                            }
                        },
                        Event::Failed(kind, detail) => {
                            self.failure = Some(HookError { hook: h, kind, detail });
                        },
                    }
                },
            }
        }
        self.current()
    }

    /// Takes the report that the work of the build that is due is done, and
    /// says what is due next. Where no such work is due nothing changes.
    pub fn advance(&mut self) -> (a: Action)
        requires
            old(self).wf(),
        ensures
            final(self).wf(),
            final(self).plan() == old(self).plan(),
            final(self).disabled() == old(self).disabled(),
            final(self)@ == old(self).plan().on_advance(old(self).disabled(), old(self)@),
            a@ == final(self).plan().action_at(final(self)@),
            a matches Action::Dispatch { hook, .. } ==> !final(self).disabled().contains(hook),
    {
        if self.failure.is_none() {
            match self.step {
                Step::Resolve(_) => {
                    proof {
                        lemma_after_work_advances(self.plan(), self@);
                    }
                    let next = self.successor();
                    self.step = next;
                    self.settle();
                },
                Step::WriteAsset(_) => {
                    proof {
                        lemma_after_work_advances(self.plan(), self@);
                    }
                    let next = self.successor();
                    self.step = next;
                    self.emitted = self.emitted + 1;
                    self.settle();
                },
                _ => {},
            }
        }
        self.current()
    }

    /// Whether the build is over: through, or given up.
    pub fn is_over(&self) -> (b: bool)
        ensures
            b == self.plan().over(self@),
    {
        self.failure.is_some() || matches!(self.step, Step::Done)
    }

    /// The step that is due.
    pub fn step(&self) -> (s: Step)
        ensures
            s == self@.step,
    {
        self.step
    }

    /// The number of files written so far.
    pub fn emitted(&self) -> (n: usize)
        ensures
            n == self@.emitted,
    {
        self.emitted
    }
}

/// What the handler is given at a step has the form that the step's hook
/// is given.
pub proof fn law_payload_fits_hook(plan: PlanModel, s: State)
    requires
        plan.has(s.step),
        plan.hook_at(s.step) is Some,
    ensures
        plan.payload_at(s).shape() == payload_shape(plan.hook_at(s.step)->Some_0),
{
}

/// The default answer at a step has the form of the answers of the step's hook.
pub proof fn lemma_default_reply_shape(plan: PlanModel, s: State)
    requires
        plan.hook_at(s.step) is Some,
    ensures
        plan.default_reply(s).shape() == reply_shape(plan.hook_at(s.step)->Some_0),
{
}

/// An answer leads from a state of a build to a state of that build at a
/// later step.
pub proof fn lemma_after_reply_advances(plan: PlanModel, s: State, reply: ReplyModel)
    requires
        plan.sound(s),
        plan.hook_at(s.step) is Some,
        s.failure is None,
    ensures
        plan.sound(plan.after_reply(s, reply)),
        plan.position(s.step) < plan.position(plan.after_reply(s, reply).step),
        plan.after_reply(s, reply).failure == s.failure,
{
    crate::sequence::lemma_successor_advances(plan, s.step);
    match s.step {
        Step::BeforeResolve(m) => {
            crate::sequence::lemma_entries(plan, m as nat + 1);
        },
        Step::ModuleDone(m) => {
            crate::sequence::lemma_entries(plan, m as nat + 1);
        },
        Step::ChunkAsset(c) => {
            crate::sequence::lemma_entries(plan, c as nat + 1);
        },
        Step::AssetEmitted(a) => {
            crate::sequence::lemma_entries(plan, a as nat + 1);
        },
        Step::OptimizeChunkModules => {
            crate::sequence::lemma_entries(plan, 0);
        },
        Step::Make => {
            crate::sequence::lemma_entries(plan, 0);
        },
        Step::ProcessAssets(_) => {
            crate::sequence::lemma_entries(plan, 0);
        },
        _ => {},
    }
}

/// Work of the build leads from a state of a build to a state of that build
/// at a later step.
pub proof fn lemma_after_work_advances(plan: PlanModel, s: State)
    requires
        plan.sound(s),
        plan.hook_at(s.step) is None,
        s.step != Step::Done,
        s.failure is None,
    ensures
        plan.sound(plan.after_work(s)),
        plan.position(s.step) < plan.position(plan.after_work(s).step),
        plan.after_work(s).failure == s.failure,
{
    crate::sequence::lemma_successor_advances(plan, s.step);
}

/// Where the driver comes to rest it can rest; it is a state of the build, no
/// earlier than where it set out, and no error arises on the way.
pub proof fn lemma_settle(plan: PlanModel, disabled: Set<Hook>, s: State)
    requires
        plan.sound(s),
    ensures
        plan.sound(plan.settle(disabled, s)),
        plan.resting(disabled, plan.settle(disabled, s)),
        plan.position(s.step) <= plan.position(plan.settle(disabled, s).step),
        plan.settle(disabled, s).failure == s.failure,
        plan.resting(disabled, s) ==> plan.settle(disabled, s) == s,
    decreases plan.remaining(s.step),
{
    if !plan.resting(disabled, s) {
        let t = plan.after_reply(s, plan.default_reply(s));
        lemma_after_reply_advances(plan, s, plan.default_reply(s));
        lemma_settle(plan, disabled, t);
    }
}

} // verus!
