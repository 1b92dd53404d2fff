//! The fixed order of a build: which steps it consists of, which hook each
//! step raises, and which step follows which.

use crate::hook::Hook;
use crate::stage::ProcessAssetsStage;
use vstd::prelude::*;

verus! {

/// Whether a request names a module or a directory of modules.
#[derive(Debug, Clone, Copy, PartialEq, Eq, Hash, Structural)]
pub enum RequestKind {
    /// One module; `beforeResolve` is raised for it.
    Normal,
    /// A context of modules; `contextModuleBeforeResolve` is raised for it.
    Context,
}

/// One module that the build is to resolve and build.
#[derive(Debug, Clone, PartialEq, Eq)]
pub struct ModuleRequest {
    pub request: String,
    pub context: String,
    pub kind: RequestKind,
    /// Whether the request carries a scheme, so that the scheme resolver is asked.
    pub scheme: bool,
    /// Whether an earlier build of the module is still valid, so that it is
    /// not built again.
    pub cached: bool,
}

/// The mathematical content of a [`ModuleRequest`].
pub ghost struct ModuleModel {
    pub request: Seq<char>,
    pub context: Seq<char>,
    pub kind: RequestKind,
    pub scheme: bool,
    pub cached: bool,
}

impl View for ModuleRequest {
    type V = ModuleModel;

    open spec fn view(&self) -> ModuleModel {
        ModuleModel {
            request: self.request@,
            context: self.context@,
            kind: self.kind,
            scheme: self.scheme,
            cached: self.cached,
        }
    }
}

/// What one build works on: the modules that are requested, in the order in
/// which the graph is walked, the number of pairings of a chunk with a file
/// made from it, and the number of files to write.
#[derive(Debug, Clone, PartialEq, Eq)]
pub struct Plan {
    pub modules: Vec<ModuleRequest>,
    pub chunk_assets: usize,
    pub assets: usize,
}

/// The mathematical content of a [`Plan`].
pub ghost struct PlanModel {
    pub modules: Seq<ModuleModel>,
    pub chunk_assets: nat,
    pub assets: nat,
}

impl View for Plan {
    type V = PlanModel;

    open spec fn view(&self) -> PlanModel {
        PlanModel {
            modules: Seq::new(self.modules@.len(), |i: int| self.modules@[i]@),
            chunk_assets: self.chunk_assets as nat,
            assets: self.assets as nat,
        }
    }
}

/// A place in the course of a build. At most places a hook is raised; at
/// `Resolve` and `WriteAsset` the build does work of its own.
#[derive(Debug, Clone, Copy, PartialEq, Eq, Hash, Structural)]
pub enum Step {
    Make,
    /// Before module `.0` is resolved.
    BeforeResolve(usize),
    /// The scheme resolver is asked about module `.0`.
    ResolveForScheme(usize),
    /// The build resolves module `.0`.
    Resolve(usize),
    AfterResolve(usize),
    BuildModule(usize),
    /// Module `.0` is done: built with success, or still valid.
    ModuleDone(usize),
    FinishModules,
    FinishMake,
    ThisCompilation,
    Compilation,
    OptimizeModules,
    OptimizeTree,
    OptimizeChunkModules,
    /// Pairing `.0` of a chunk with a file made from it.
    ChunkAsset(usize),
    BeforeCompile,
    AfterCompile,
    ShouldEmit,
    Emit,
    ProcessAssets(ProcessAssetsStage),
    /// The build writes file `.0`.
    WriteAsset(usize),
    AssetEmitted(usize),
    AfterEmit,
    /// The build is through.
    Done,
}

impl PlanModel {
    /// Whether the plan's counts are such as a program can hold. The content
    /// of every [`Plan`] is.
    pub open spec fn bounded(self) -> bool {
        self.modules.len() <= usize::MAX && self.chunk_assets <= usize::MAX && self.assets
            <= usize::MAX
    }

    /// The first step of module `m`, or what follows the modules where
    /// there is no module `m`.
    pub open spec fn module_entry(self, m: nat) -> Step {
        if m < self.modules.len() {
            Step::BeforeResolve(m as usize)
        } else {
            Step::FinishModules
        }
    }

    /// The step of pairing `c`, or what follows the pairings.
    pub open spec fn chunk_entry(self, c: nat) -> Step {
        if c < self.chunk_assets {
            Step::ChunkAsset(c as usize)
        } else {
            Step::BeforeCompile
        }
    }

    /// The first step of file `a`, or what follows the files.
    pub open spec fn asset_entry(self, a: nat) -> Step {
        if a < self.assets {
            Step::WriteAsset(a as usize)
        } else {
            Step::AfterEmit
        }
    }

    /// Whether `step` is a step of this plan: its module, pairing or file exists.
    pub open spec fn has(self, step: Step) -> bool {
        match step {
            Step::BeforeResolve(m)
            | Step::Resolve(m)
            | Step::AfterResolve(m)
            | Step::ModuleDone(m) => m < self.modules.len(),
            Step::ResolveForScheme(m) => m < self.modules.len() && self.modules[m as int].scheme,
            Step::BuildModule(m) => m < self.modules.len() && !self.modules[m as int].cached,
            Step::ChunkAsset(c) => c < self.chunk_assets,
            Step::WriteAsset(a) | Step::AssetEmitted(a) => a < self.assets,
            _ => true,
        }
    }

    /// The hook that is raised at `step`; none where the build works itself,
    /// and none at the end.
    pub open spec fn hook_at(self, step: Step) -> Option<Hook> {
        match step {
            Step::Make => Some(Hook::Make),
            Step::BeforeResolve(m) => if self.modules[m as int].kind == RequestKind::Context {
                Some(Hook::ContextModuleBeforeResolve)
            } else {
                Some(Hook::BeforeResolve)
            },
            Step::ResolveForScheme(_) => Some(Hook::NormalModuleFactoryResolveForScheme),
            Step::Resolve(_) => None,
            Step::AfterResolve(_) => Some(Hook::AfterResolve),
            Step::BuildModule(_) => Some(Hook::BuildModule),
            Step::ModuleDone(m) => if self.modules[m as int].cached {
                Some(Hook::StillValidModule)
            } else {
                Some(Hook::SucceedModule)
            },
            Step::FinishModules => Some(Hook::FinishModules),
            Step::FinishMake => Some(Hook::FinishMake),
            Step::ThisCompilation => Some(Hook::ThisCompilation),
            Step::Compilation => Some(Hook::Compilation),
            Step::OptimizeModules => Some(Hook::OptimizeModules),
            Step::OptimizeTree => Some(Hook::OptimizeTree),
            Step::OptimizeChunkModules => Some(Hook::OptimizeChunkModules),
            Step::ChunkAsset(_) => Some(Hook::ChunkAsset),
            Step::BeforeCompile => Some(Hook::BeforeCompile),
            Step::AfterCompile => Some(Hook::AfterCompile),
            Step::ShouldEmit => Some(Hook::ShouldEmit),
            Step::Emit => Some(Hook::Emit),
            Step::ProcessAssets(s) => Some(s.stage_hook()),
            Step::WriteAsset(_) => None,
            Step::AssetEmitted(_) => Some(Hook::AssetEmitted),
            Step::AfterEmit => Some(Hook::AfterEmit),
            Step::Done => None,
        }
    }

    /// The step that follows `step` where no answer cuts the course short.
    pub open spec fn successor(self, step: Step) -> Step {
        match step {
            Step::Make => self.module_entry(0),
            Step::BeforeResolve(m) => if self.modules[m as int].scheme {
                Step::ResolveForScheme(m)
            } else {
                Step::Resolve(m)
            },
            Step::ResolveForScheme(m) => Step::Resolve(m),
            Step::Resolve(m) => Step::AfterResolve(m),
            Step::AfterResolve(m) => if self.modules[m as int].cached {
                Step::ModuleDone(m)
            } else {
                Step::BuildModule(m)
            },
            Step::BuildModule(m) => Step::ModuleDone(m),
            Step::ModuleDone(m) => self.module_entry(m as nat + 1),
            Step::FinishModules => Step::FinishMake,
            Step::FinishMake => Step::ThisCompilation,
            Step::ThisCompilation => Step::Compilation,
            Step::Compilation => Step::OptimizeModules,
            Step::OptimizeModules => Step::OptimizeTree,
            Step::OptimizeTree => Step::OptimizeChunkModules,
            Step::OptimizeChunkModules => self.chunk_entry(0),
            Step::ChunkAsset(c) => self.chunk_entry(c as nat + 1),
            Step::BeforeCompile => Step::AfterCompile,
            Step::AfterCompile => Step::ShouldEmit,
            Step::ShouldEmit => Step::Emit,
            Step::Emit => Step::ProcessAssets(ProcessAssetsStage::Additional),
            Step::ProcessAssets(s) => match s.successor() {
                Some(t) => Step::ProcessAssets(t),
                None => self.asset_entry(0),
            },
            Step::WriteAsset(a) => Step::AssetEmitted(a),
            Step::AssetEmitted(a) => self.asset_entry(a as nat + 1),
            Step::AfterEmit => Step::Done,
            Step::Done => Step::Done,
        }
    }

    /// The place of `step` in the order of the build: a step that comes
    /// later in a build has the greater number.
    pub open spec fn position(self, step: Step) -> nat {
        let after_modules = 1 + 6 * self.modules.len();
        let after_chunks = after_modules + 7 + self.chunk_assets;
        let after_stages = after_chunks + 20;
        match step {
            Step::Make => 0,
            Step::BeforeResolve(m) => 1 + 6 * (m as nat),
            Step::ResolveForScheme(m) => 2 + 6 * (m as nat),
            Step::Resolve(m) => 3 + 6 * (m as nat),
            Step::AfterResolve(m) => 4 + 6 * (m as nat),
            Step::BuildModule(m) => 5 + 6 * (m as nat),
            Step::ModuleDone(m) => 6 + 6 * (m as nat),
            Step::FinishModules => after_modules,
            Step::FinishMake => after_modules + 1,
            Step::ThisCompilation => after_modules + 2,
            Step::Compilation => after_modules + 3,
            Step::OptimizeModules => after_modules + 4,
            Step::OptimizeTree => after_modules + 5,
            Step::OptimizeChunkModules => after_modules + 6,
            Step::ChunkAsset(c) => after_modules + 7 + (c as nat),
            Step::BeforeCompile => after_chunks,
            Step::AfterCompile => after_chunks + 1,
            Step::ShouldEmit => after_chunks + 2,
            Step::Emit => after_chunks + 3,
            Step::ProcessAssets(s) => after_chunks + 4 + s.ordinal(),
            Step::WriteAsset(a) => after_stages + 2 * (a as nat),
            Step::AssetEmitted(a) => after_stages + 2 * (a as nat) + 1,
            Step::AfterEmit => after_stages + 2 * self.assets,
            Step::Done => after_stages + 2 * self.assets + 1,
        }
    }

    /// How far `step` is from the end of the build.
    pub open spec fn remaining(self, step: Step) -> nat {
        (self.position(Step::Done) - self.position(step)) as nat
    }
}

/// The step after a step of the plan is a step of the plan, and comes later.
pub proof fn lemma_successor_advances(plan: PlanModel, step: Step)
    requires
        plan.bounded(),
        plan.has(step),
        step != Step::Done,
    ensures
        plan.has(plan.successor(step)),
        plan.position(step) < plan.position(plan.successor(step)),
        plan.position(plan.successor(step)) <= plan.position(Step::Done),
{
}

/// The first step of a module, pairing or file, or what follows the last of
/// them, is a step of the plan.
pub proof fn lemma_entries(plan: PlanModel, k: nat)
    requires
        plan.bounded(),
    ensures
        plan.has(plan.module_entry(k)),
        plan.has(plan.chunk_entry(k)),
        plan.has(plan.asset_entry(k)),
        k <= plan.modules.len() ==> plan.position(plan.module_entry(k)) == 1 + 6 * k,
        k <= plan.assets ==> plan.position(plan.asset_entry(k)) == plan.position(
            Step::WriteAsset(0),
        ) + 2 * k,
        plan.position(plan.module_entry(k)) <= plan.position(Step::FinishModules),
        plan.position(plan.chunk_entry(k)) <= plan.position(Step::BeforeCompile),
        plan.position(plan.asset_entry(k)) <= plan.position(Step::AfterEmit),
{
}

/// Two steps of a plan at one place are one step: the place orders the steps.
pub proof fn law_position_tells_steps_apart(plan: PlanModel, a: Step, b: Step)
    requires
        plan.has(a),
        plan.has(b),
        plan.position(a) == plan.position(b),
    ensures
        a == b,
{
}

} // verus!
