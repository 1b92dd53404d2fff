//! The closed set of lifecycle hooks, and the set of hooks that are switched off.

use crate::text::str_eq;
use vstd::prelude::*;

verus! {

/// A lifecycle event at which the build yields to the registered handler.
/// The variants stand in the order in which a build reaches them;
/// `ExecuteModule` is raised on demand and stands last.
#[derive(Debug, Clone, Copy, PartialEq, Eq, Hash, Structural)]
pub enum Hook {
    Make,
    BeforeResolve,
    AfterResolve,
    ContextModuleBeforeResolve,
    NormalModuleFactoryResolveForScheme,
    BuildModule,
    SucceedModule,
    StillValidModule,
    FinishModules,
    FinishMake,
    ThisCompilation,
    Compilation,
    OptimizeModules,
    OptimizeTree,
    OptimizeChunkModules,
    ChunkAsset,
    BeforeCompile,
    AfterCompile,
    ShouldEmit,
    Emit,
    ProcessAssetsStageAdditional,
    ProcessAssetsStagePreProcess,
    ProcessAssetsStageDerived,
    ProcessAssetsStageAdditions,
    ProcessAssetsStageNone,
    ProcessAssetsStageOptimize,
    ProcessAssetsStageOptimizeCount,
    ProcessAssetsStageOptimizeCompatibility,
    ProcessAssetsStageOptimizeSize,
    ProcessAssetsStageDevTooling,
    ProcessAssetsStageOptimizeInline,
    ProcessAssetsStageSummarize,
    ProcessAssetsStageOptimizeHash,
    ProcessAssetsStageOptimizeTransfer,
    ProcessAssetsStageAnalyse,
    ProcessAssetsStageReport,
    AssetEmitted,
    AfterEmit,
    ExecuteModule,
}

/// How the caller waits for the handler's answer.
#[derive(Debug, Clone, Copy, PartialEq, Eq, Hash, Structural)]
pub enum CallMode {
    /// The issuing task is suspended; its worker thread is free meanwhile.
    NonBlocking,
    /// The issuing thread is held until the answer is there.
    Blocking,
}

/// The number of hooks.
pub const HOOK_COUNT: u8 = 39;

impl Hook {
    /// The position of the hook in the enumeration, from 0.
    pub open spec fn ordinal(self) -> nat {
        match self {
            Hook::Make => 0,
            Hook::BeforeResolve => 1,
            Hook::AfterResolve => 2,
            Hook::ContextModuleBeforeResolve => 3,
            Hook::NormalModuleFactoryResolveForScheme => 4,
            Hook::BuildModule => 5,
            Hook::SucceedModule => 6,
            Hook::StillValidModule => 7,
            Hook::FinishModules => 8,
            Hook::FinishMake => 9,
            Hook::ThisCompilation => 10,
            Hook::Compilation => 11,
            Hook::OptimizeModules => 12,
            Hook::OptimizeTree => 13,
            Hook::OptimizeChunkModules => 14,
            Hook::ChunkAsset => 15,
            Hook::BeforeCompile => 16,
            Hook::AfterCompile => 17,
            Hook::ShouldEmit => 18,
            Hook::Emit => 19,
            Hook::ProcessAssetsStageAdditional => 20,
            Hook::ProcessAssetsStagePreProcess => 21,
            Hook::ProcessAssetsStageDerived => 22,
            Hook::ProcessAssetsStageAdditions => 23,
            Hook::ProcessAssetsStageNone => 24,
            Hook::ProcessAssetsStageOptimize => 25,
            Hook::ProcessAssetsStageOptimizeCount => 26,
            Hook::ProcessAssetsStageOptimizeCompatibility => 27,
            Hook::ProcessAssetsStageOptimizeSize => 28,
            Hook::ProcessAssetsStageDevTooling => 29,
            Hook::ProcessAssetsStageOptimizeInline => 30,
            Hook::ProcessAssetsStageSummarize => 31,
            Hook::ProcessAssetsStageOptimizeHash => 32,
            Hook::ProcessAssetsStageOptimizeTransfer => 33,
            Hook::ProcessAssetsStageAnalyse => 34,
            Hook::ProcessAssetsStageReport => 35,
            Hook::AssetEmitted => 36,
            Hook::AfterEmit => 37,
            Hook::ExecuteModule => 38,
        }
    }

    /// The hook at a position of the enumeration.
    pub open spec fn at(i: nat) -> Option<Hook> {
        if i == 0 {
            Some(Hook::Make)
        } else if i == 1 {
            Some(Hook::BeforeResolve)
        } else if i == 2 {
            Some(Hook::AfterResolve)
        } else if i == 3 {
            Some(Hook::ContextModuleBeforeResolve)
        } else if i == 4 {
            Some(Hook::NormalModuleFactoryResolveForScheme)
        } else if i == 5 {
            Some(Hook::BuildModule)
        } else if i == 6 {
            Some(Hook::SucceedModule)
        } else if i == 7 {
            Some(Hook::StillValidModule)
        } else if i == 8 {
            Some(Hook::FinishModules)
        } else if i == 9 {
            Some(Hook::FinishMake)
        } else if i == 10 {
            Some(Hook::ThisCompilation)
        } else if i == 11 {
            Some(Hook::Compilation)
        } else if i == 12 {
            Some(Hook::OptimizeModules)
        } else if i == 13 {
            Some(Hook::OptimizeTree)
        } else if i == 14 {
            Some(Hook::OptimizeChunkModules)
        } else if i == 15 {
            Some(Hook::ChunkAsset)
        } else if i == 16 {
            Some(Hook::BeforeCompile)
        } else if i == 17 {
            Some(Hook::AfterCompile)
        } else if i == 18 {
            Some(Hook::ShouldEmit)
        } else if i == 19 {
            Some(Hook::Emit)
        } else if i == 20 {
            Some(Hook::ProcessAssetsStageAdditional)
        } else if i == 21 {
            Some(Hook::ProcessAssetsStagePreProcess)
        } else if i == 22 {
            Some(Hook::ProcessAssetsStageDerived)
        } else if i == 23 {
            Some(Hook::ProcessAssetsStageAdditions)
        } else if i == 24 {
            Some(Hook::ProcessAssetsStageNone)
        } else if i == 25 {
            Some(Hook::ProcessAssetsStageOptimize)
        } else if i == 26 {
            Some(Hook::ProcessAssetsStageOptimizeCount)
        } else if i == 27 {
            Some(Hook::ProcessAssetsStageOptimizeCompatibility)
        } else if i == 28 {
            Some(Hook::ProcessAssetsStageOptimizeSize)
        } else if i == 29 {
            Some(Hook::ProcessAssetsStageDevTooling)
        } else if i == 30 {
            Some(Hook::ProcessAssetsStageOptimizeInline)
        } else if i == 31 {
            Some(Hook::ProcessAssetsStageSummarize)
        } else if i == 32 {
            Some(Hook::ProcessAssetsStageOptimizeHash)
        } else if i == 33 {
            Some(Hook::ProcessAssetsStageOptimizeTransfer)
        } else if i == 34 {
            Some(Hook::ProcessAssetsStageAnalyse)
        } else if i == 35 {
            Some(Hook::ProcessAssetsStageReport)
        } else if i == 36 {
            Some(Hook::AssetEmitted)
        } else if i == 37 {
            Some(Hook::AfterEmit)
        } else if i == 38 {
            Some(Hook::ExecuteModule)
        } else {
            None
        }
    }

    /// The name under which handlers register for the hook.
    pub open spec fn name(self) -> Seq<char> {
        match self {
            Hook::Make => "make"@,
            Hook::BeforeResolve => "beforeResolve"@,
            Hook::AfterResolve => "afterResolve"@,
            Hook::ContextModuleBeforeResolve => "contextModuleBeforeResolve"@,
            Hook::NormalModuleFactoryResolveForScheme => "normalModuleFactoryResolveForScheme"@,
            Hook::BuildModule => "buildModule"@,
            Hook::SucceedModule => "succeedModule"@,
            Hook::StillValidModule => "stillValidModule"@,
            Hook::FinishModules => "finishModules"@,
            Hook::FinishMake => "finishMake"@,
            Hook::ThisCompilation => "thisCompilation"@,
            Hook::Compilation => "compilation"@,
            Hook::OptimizeModules => "optimizeModules"@,
            Hook::OptimizeTree => "optimizeTree"@,
            Hook::OptimizeChunkModules => "optimizeChunkModules"@,
            Hook::ChunkAsset => "chunkAsset"@,
            Hook::BeforeCompile => "beforeCompile"@,
            Hook::AfterCompile => "afterCompile"@,
            Hook::ShouldEmit => "shouldEmit"@,
            Hook::Emit => "emit"@,
            Hook::ProcessAssetsStageAdditional => "processAssetsStageAdditional"@,
            Hook::ProcessAssetsStagePreProcess => "processAssetsStagePreProcess"@,
            Hook::ProcessAssetsStageDerived => "processAssetsStageDerived"@,
            Hook::ProcessAssetsStageAdditions => "processAssetsStageAdditions"@,
            Hook::ProcessAssetsStageNone => "processAssetsStageNone"@,
            Hook::ProcessAssetsStageOptimize => "processAssetsStageOptimize"@,
            Hook::ProcessAssetsStageOptimizeCount => "processAssetsStageOptimizeCount"@,
            Hook::ProcessAssetsStageOptimizeCompatibility => "processAssetsStageOptimizeCompatibility"@,
            Hook::ProcessAssetsStageOptimizeSize => "processAssetsStageOptimizeSize"@,
            Hook::ProcessAssetsStageDevTooling => "processAssetsStageDevTooling"@,
            Hook::ProcessAssetsStageOptimizeInline => "processAssetsStageOptimizeInline"@,
            Hook::ProcessAssetsStageSummarize => "processAssetsStageSummarize"@,
            Hook::ProcessAssetsStageOptimizeHash => "processAssetsStageOptimizeHash"@,
            Hook::ProcessAssetsStageOptimizeTransfer => "processAssetsStageOptimizeTransfer"@,
            Hook::ProcessAssetsStageAnalyse => "processAssetsStageAnalyse"@,
            Hook::ProcessAssetsStageReport => "processAssetsStageReport"@,
            Hook::AssetEmitted => "assetEmitted"@,
            Hook::AfterEmit => "afterEmit"@,
            Hook::ExecuteModule => "executeModule"@,
        }
    }

    /// The hook that a registered name stands for, if any.
    pub open spec fn named(s: Seq<char>) -> Option<Hook> {
        if s == "make"@ {
            Some(Hook::Make)
        } else if s == "beforeResolve"@ {
            Some(Hook::BeforeResolve)
        } else if s == "afterResolve"@ {
            Some(Hook::AfterResolve)
        } else if s == "contextModuleBeforeResolve"@ {
            Some(Hook::ContextModuleBeforeResolve)
        } else if s == "normalModuleFactoryResolveForScheme"@ {
            Some(Hook::NormalModuleFactoryResolveForScheme)
        } else if s == "buildModule"@ {
            Some(Hook::BuildModule)
        } else if s == "succeedModule"@ {
            Some(Hook::SucceedModule)
        } else if s == "stillValidModule"@ {
            Some(Hook::StillValidModule)
        } else if s == "finishModules"@ {
            Some(Hook::FinishModules)
        } else if s == "finishMake"@ {
            Some(Hook::FinishMake)
        } else if s == "thisCompilation"@ {
            Some(Hook::ThisCompilation)
        } else if s == "compilation"@ {
            Some(Hook::Compilation)
        } else if s == "optimizeModules"@ {
            Some(Hook::OptimizeModules)
        } else if s == "optimizeTree"@ {
            Some(Hook::OptimizeTree)
        } else if s == "optimizeChunkModules"@ {
            Some(Hook::OptimizeChunkModules)
        } else if s == "chunkAsset"@ {
            Some(Hook::ChunkAsset)
        } else if s == "beforeCompile"@ {
            Some(Hook::BeforeCompile)
        } else if s == "afterCompile"@ {
            Some(Hook::AfterCompile)
        } else if s == "shouldEmit"@ {
            Some(Hook::ShouldEmit)
        } else if s == "emit"@ {
            Some(Hook::Emit)
        } else if s == "processAssetsStageAdditional"@ {
            Some(Hook::ProcessAssetsStageAdditional)
        } else if s == "processAssetsStagePreProcess"@ {
            Some(Hook::ProcessAssetsStagePreProcess)
        } else if s == "processAssetsStageDerived"@ {
            Some(Hook::ProcessAssetsStageDerived)
        } else if s == "processAssetsStageAdditions"@ {
            Some(Hook::ProcessAssetsStageAdditions)
        } else if s == "processAssetsStageNone"@ {
            Some(Hook::ProcessAssetsStageNone)
        } else if s == "processAssetsStageOptimize"@ {
            Some(Hook::ProcessAssetsStageOptimize)
        } else if s == "processAssetsStageOptimizeCount"@ {
            Some(Hook::ProcessAssetsStageOptimizeCount)
        } else if s == "processAssetsStageOptimizeCompatibility"@ {
            Some(Hook::ProcessAssetsStageOptimizeCompatibility)
        } else if s == "processAssetsStageOptimizeSize"@ {
            Some(Hook::ProcessAssetsStageOptimizeSize)
        } else if s == "processAssetsStageDevTooling"@ {
            Some(Hook::ProcessAssetsStageDevTooling)
        } else if s == "processAssetsStageOptimizeInline"@ {
            Some(Hook::ProcessAssetsStageOptimizeInline)
        } else if s == "processAssetsStageSummarize"@ {
            Some(Hook::ProcessAssetsStageSummarize)
        } else if s == "processAssetsStageOptimizeHash"@ {
            Some(Hook::ProcessAssetsStageOptimizeHash)
        } else if s == "processAssetsStageOptimizeTransfer"@ {
            Some(Hook::ProcessAssetsStageOptimizeTransfer)
        } else if s == "processAssetsStageAnalyse"@ {
            Some(Hook::ProcessAssetsStageAnalyse)
        } else if s == "processAssetsStageReport"@ {
            Some(Hook::ProcessAssetsStageReport)
        } else if s == "assetEmitted"@ {
            Some(Hook::AssetEmitted)
        } else if s == "afterEmit"@ {
            Some(Hook::AfterEmit)
        } else if s == "executeModule"@ {
            Some(Hook::ExecuteModule)
        } else {
            None
        }
    }

    /// The calling convention of the hook. It belongs to the hook and is not
    /// chosen call by call: the two hooks whose answer later work depends on
    /// at once hold their caller.
    pub open spec fn mode(self) -> CallMode {
        if self == Hook::ExecuteModule || self == Hook::OptimizeModules {
            CallMode::Blocking
        } else {
            CallMode::NonBlocking
        }
    }

    pub fn index(&self) -> (i: u8)
        ensures
            i == self.ordinal(),
            i < HOOK_COUNT,
    {
        match self {
            Hook::Make => 0,
            Hook::BeforeResolve => 1,
            Hook::AfterResolve => 2,
            Hook::ContextModuleBeforeResolve => 3,
            Hook::NormalModuleFactoryResolveForScheme => 4,
            Hook::BuildModule => 5,
            Hook::SucceedModule => 6,
            Hook::StillValidModule => 7,
            Hook::FinishModules => 8,
            Hook::FinishMake => 9,
            Hook::ThisCompilation => 10,
            Hook::Compilation => 11,
            Hook::OptimizeModules => 12,
            Hook::OptimizeTree => 13,
            Hook::OptimizeChunkModules => 14,
            Hook::ChunkAsset => 15,
            Hook::BeforeCompile => 16,
            Hook::AfterCompile => 17,
            Hook::ShouldEmit => 18,
            Hook::Emit => 19,
            Hook::ProcessAssetsStageAdditional => 20,
            Hook::ProcessAssetsStagePreProcess => 21,
            Hook::ProcessAssetsStageDerived => 22,
            Hook::ProcessAssetsStageAdditions => 23,
            Hook::ProcessAssetsStageNone => 24,
            Hook::ProcessAssetsStageOptimize => 25,
            Hook::ProcessAssetsStageOptimizeCount => 26,
            Hook::ProcessAssetsStageOptimizeCompatibility => 27,
            Hook::ProcessAssetsStageOptimizeSize => 28,
            Hook::ProcessAssetsStageDevTooling => 29,
            Hook::ProcessAssetsStageOptimizeInline => 30,
            Hook::ProcessAssetsStageSummarize => 31,
            Hook::ProcessAssetsStageOptimizeHash => 32,
            Hook::ProcessAssetsStageOptimizeTransfer => 33,
            Hook::ProcessAssetsStageAnalyse => 34,
            Hook::ProcessAssetsStageReport => 35,
            Hook::AssetEmitted => 36,
            Hook::AfterEmit => 37,
            Hook::ExecuteModule => 38,
        }
    }

    pub fn from_index(i: u8) -> (h: Option<Hook>)
        ensures
            h == Hook::at(i as nat),
            h is Some <==> i < HOOK_COUNT,
    {
        match i {
            0 => Some(Hook::Make),
            1 => Some(Hook::BeforeResolve),
            2 => Some(Hook::AfterResolve),
            3 => Some(Hook::ContextModuleBeforeResolve),
            4 => Some(Hook::NormalModuleFactoryResolveForScheme),
            5 => Some(Hook::BuildModule),
            6 => Some(Hook::SucceedModule),
            7 => Some(Hook::StillValidModule),
            8 => Some(Hook::FinishModules),
            9 => Some(Hook::FinishMake),
            10 => Some(Hook::ThisCompilation),
            11 => Some(Hook::Compilation),
            12 => Some(Hook::OptimizeModules),
            13 => Some(Hook::OptimizeTree),
            14 => Some(Hook::OptimizeChunkModules),
            15 => Some(Hook::ChunkAsset),
            16 => Some(Hook::BeforeCompile),
            17 => Some(Hook::AfterCompile),
            18 => Some(Hook::ShouldEmit),
            19 => Some(Hook::Emit),
            20 => Some(Hook::ProcessAssetsStageAdditional),
            21 => Some(Hook::ProcessAssetsStagePreProcess),
            22 => Some(Hook::ProcessAssetsStageDerived),
            23 => Some(Hook::ProcessAssetsStageAdditions),
            24 => Some(Hook::ProcessAssetsStageNone),
            25 => Some(Hook::ProcessAssetsStageOptimize),
            26 => Some(Hook::ProcessAssetsStageOptimizeCount),
            27 => Some(Hook::ProcessAssetsStageOptimizeCompatibility),
            28 => Some(Hook::ProcessAssetsStageOptimizeSize),
            29 => Some(Hook::ProcessAssetsStageDevTooling),
            30 => Some(Hook::ProcessAssetsStageOptimizeInline),
            31 => Some(Hook::ProcessAssetsStageSummarize),
            32 => Some(Hook::ProcessAssetsStageOptimizeHash),
            33 => Some(Hook::ProcessAssetsStageOptimizeTransfer),
            34 => Some(Hook::ProcessAssetsStageAnalyse),
            35 => Some(Hook::ProcessAssetsStageReport),
            36 => Some(Hook::AssetEmitted),
            37 => Some(Hook::AfterEmit),
            38 => Some(Hook::ExecuteModule),
            _ => None,
        }
    }

    pub fn as_str(&self) -> (s: &'static str)
        ensures
            s@ == self.name(),
    {
        match self {
            Hook::Make => "make",
            Hook::BeforeResolve => "beforeResolve",
            Hook::AfterResolve => "afterResolve",
            Hook::ContextModuleBeforeResolve => "contextModuleBeforeResolve",
            Hook::NormalModuleFactoryResolveForScheme => "normalModuleFactoryResolveForScheme",
            Hook::BuildModule => "buildModule",
            Hook::SucceedModule => "succeedModule",
            Hook::StillValidModule => "stillValidModule",
            Hook::FinishModules => "finishModules",
            Hook::FinishMake => "finishMake",
            Hook::ThisCompilation => "thisCompilation",
            Hook::Compilation => "compilation",
            Hook::OptimizeModules => "optimizeModules",
            Hook::OptimizeTree => "optimizeTree",
            Hook::OptimizeChunkModules => "optimizeChunkModules",
            Hook::ChunkAsset => "chunkAsset",
            Hook::BeforeCompile => "beforeCompile",
            Hook::AfterCompile => "afterCompile",
            Hook::ShouldEmit => "shouldEmit",
            Hook::Emit => "emit",
            Hook::ProcessAssetsStageAdditional => "processAssetsStageAdditional",
            Hook::ProcessAssetsStagePreProcess => "processAssetsStagePreProcess",
            Hook::ProcessAssetsStageDerived => "processAssetsStageDerived",
            Hook::ProcessAssetsStageAdditions => "processAssetsStageAdditions",
            Hook::ProcessAssetsStageNone => "processAssetsStageNone",
            Hook::ProcessAssetsStageOptimize => "processAssetsStageOptimize",
            Hook::ProcessAssetsStageOptimizeCount => "processAssetsStageOptimizeCount",
            Hook::ProcessAssetsStageOptimizeCompatibility => "processAssetsStageOptimizeCompatibility",
            Hook::ProcessAssetsStageOptimizeSize => "processAssetsStageOptimizeSize",
            Hook::ProcessAssetsStageDevTooling => "processAssetsStageDevTooling",
            Hook::ProcessAssetsStageOptimizeInline => "processAssetsStageOptimizeInline",
            Hook::ProcessAssetsStageSummarize => "processAssetsStageSummarize",
            Hook::ProcessAssetsStageOptimizeHash => "processAssetsStageOptimizeHash",
            Hook::ProcessAssetsStageOptimizeTransfer => "processAssetsStageOptimizeTransfer",
            Hook::ProcessAssetsStageAnalyse => "processAssetsStageAnalyse",
            Hook::ProcessAssetsStageReport => "processAssetsStageReport",
            Hook::AssetEmitted => "assetEmitted",
            Hook::AfterEmit => "afterEmit",
            Hook::ExecuteModule => "executeModule",
        }
    }

    pub fn from_name(name: &str) -> (h: Option<Hook>)
        ensures
            h == Hook::named(name@),
    {
        if str_eq(name, "make") {
            Some(Hook::Make)
        } else if str_eq(name, "beforeResolve") {
            Some(Hook::BeforeResolve)
        } else if str_eq(name, "afterResolve") {
            Some(Hook::AfterResolve)
        } else if str_eq(name, "contextModuleBeforeResolve") {
            Some(Hook::ContextModuleBeforeResolve)
        } else if str_eq(name, "normalModuleFactoryResolveForScheme") {
            Some(Hook::NormalModuleFactoryResolveForScheme)
        } else if str_eq(name, "buildModule") {
            Some(Hook::BuildModule)
        } else if str_eq(name, "succeedModule") {
            Some(Hook::SucceedModule)
        } else if str_eq(name, "stillValidModule") {
            Some(Hook::StillValidModule)
        } else if str_eq(name, "finishModules") {
            Some(Hook::FinishModules)
        } else if str_eq(name, "finishMake") {
            Some(Hook::FinishMake)
        } else if str_eq(name, "thisCompilation") {
            Some(Hook::ThisCompilation)
        } else if str_eq(name, "compilation") {
            Some(Hook::Compilation)
        } else if str_eq(name, "optimizeModules") {
            Some(Hook::OptimizeModules)
        } else if str_eq(name, "optimizeTree") {
            Some(Hook::OptimizeTree)
        } else if str_eq(name, "optimizeChunkModules") {
            Some(Hook::OptimizeChunkModules)
        } else if str_eq(name, "chunkAsset") {
            Some(Hook::ChunkAsset)
        } else if str_eq(name, "beforeCompile") {
            Some(Hook::BeforeCompile)
        } else if str_eq(name, "afterCompile") {
            Some(Hook::AfterCompile)
        } else if str_eq(name, "shouldEmit") {
            Some(Hook::ShouldEmit)
        } else if str_eq(name, "emit") {
            Some(Hook::Emit)
        } else if str_eq(name, "processAssetsStageAdditional") {
            Some(Hook::ProcessAssetsStageAdditional)
        } else if str_eq(name, "processAssetsStagePreProcess") {
            Some(Hook::ProcessAssetsStagePreProcess)
        } else if str_eq(name, "processAssetsStageDerived") {
            Some(Hook::ProcessAssetsStageDerived)
        } else if str_eq(name, "processAssetsStageAdditions") {
            Some(Hook::ProcessAssetsStageAdditions)
        } else if str_eq(name, "processAssetsStageNone") {
            Some(Hook::ProcessAssetsStageNone)
        } else if str_eq(name, "processAssetsStageOptimize") {
            Some(Hook::ProcessAssetsStageOptimize)
        } else if str_eq(name, "processAssetsStageOptimizeCount") {
            Some(Hook::ProcessAssetsStageOptimizeCount)
        } else if str_eq(name, "processAssetsStageOptimizeCompatibility") {
            Some(Hook::ProcessAssetsStageOptimizeCompatibility)
        } else if str_eq(name, "processAssetsStageOptimizeSize") {
            Some(Hook::ProcessAssetsStageOptimizeSize)
        } else if str_eq(name, "processAssetsStageDevTooling") {
            Some(Hook::ProcessAssetsStageDevTooling)
        } else if str_eq(name, "processAssetsStageOptimizeInline") {
            Some(Hook::ProcessAssetsStageOptimizeInline)
        } else if str_eq(name, "processAssetsStageSummarize") {
            Some(Hook::ProcessAssetsStageSummarize)
        } else if str_eq(name, "processAssetsStageOptimizeHash") {
            Some(Hook::ProcessAssetsStageOptimizeHash)
        } else if str_eq(name, "processAssetsStageOptimizeTransfer") {
            Some(Hook::ProcessAssetsStageOptimizeTransfer)
        } else if str_eq(name, "processAssetsStageAnalyse") {
            Some(Hook::ProcessAssetsStageAnalyse)
        } else if str_eq(name, "processAssetsStageReport") {
            Some(Hook::ProcessAssetsStageReport)
        } else if str_eq(name, "assetEmitted") {
            Some(Hook::AssetEmitted)
        } else if str_eq(name, "afterEmit") {
            Some(Hook::AfterEmit)
        } else if str_eq(name, "executeModule") {
            Some(Hook::ExecuteModule)
        } else {
            None
        }
    }

    pub fn call_mode(&self) -> (m: CallMode)
        ensures
            m == self.mode(),
    {
        match self {
            Hook::ExecuteModule | Hook::OptimizeModules => CallMode::Blocking,
            _ => CallMode::NonBlocking,
        }
    }
}

/// Every hook has a position below the count, and the position finds the
/// hook again.
pub proof fn law_ordinal_round_trip(h: Hook)
    ensures
        h.ordinal() < HOOK_COUNT,
        Hook::at(h.ordinal()) == Some(h),
{
}

/// Two hooks with one position are one hook.
pub proof fn lemma_ordinal_injective(a: Hook, b: Hook)
    requires
        a.ordinal() == b.ordinal(),
    ensures
        a == b,
{
}

} // verus!
