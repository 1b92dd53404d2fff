//! The sub-stages of asset processing and their fixed order.

use crate::hook::Hook;
use vstd::prelude::*;

verus! {

/// A sub-stage of asset processing. The variants stand in the order in which
/// the sub-stages run; two handlers on different sub-stages see each other's
/// work in that order, whichever registered first.
#[derive(Debug, Clone, Copy, PartialEq, Eq, Hash, Structural)]
pub enum ProcessAssetsStage {
    Additional,
    PreProcess,
    Derived,
    Additions,
    /// The sub-stage `none`: nothing special happens in it.
    Plain,
    Optimize,
    OptimizeCount,
    OptimizeCompatibility,
    OptimizeSize,
    DevTooling,
    OptimizeInline,
    Summarize,
    OptimizeHash,
    OptimizeTransfer,
    Analyse,
    Report,
}

/// The number of sub-stages.
pub const STAGE_COUNT: u8 = 16;

impl ProcessAssetsStage {
    /// The position of the sub-stage in the order, from 0.
    pub open spec fn ordinal(self) -> nat {
        match self {
            ProcessAssetsStage::Additional => 0,
            ProcessAssetsStage::PreProcess => 1,
            ProcessAssetsStage::Derived => 2,
            ProcessAssetsStage::Additions => 3,
            ProcessAssetsStage::Plain => 4,
            ProcessAssetsStage::Optimize => 5,
            ProcessAssetsStage::OptimizeCount => 6,
            ProcessAssetsStage::OptimizeCompatibility => 7,
            ProcessAssetsStage::OptimizeSize => 8,
            ProcessAssetsStage::DevTooling => 9,
            ProcessAssetsStage::OptimizeInline => 10,
            ProcessAssetsStage::Summarize => 11,
            ProcessAssetsStage::OptimizeHash => 12,
            ProcessAssetsStage::OptimizeTransfer => 13,
            ProcessAssetsStage::Analyse => 14,
            ProcessAssetsStage::Report => 15,
        }
    }

    /// The sub-stage at a position of the order.
    pub open spec fn at(i: nat) -> Option<ProcessAssetsStage> {
        if i == 0 {
            Some(ProcessAssetsStage::Additional)
        } else if i == 1 {
            Some(ProcessAssetsStage::PreProcess)
        } else if i == 2 {
            Some(ProcessAssetsStage::Derived)
        } else if i == 3 {
            Some(ProcessAssetsStage::Additions)
        } else if i == 4 {
            Some(ProcessAssetsStage::Plain)
        } else if i == 5 {
            Some(ProcessAssetsStage::Optimize)
        } else if i == 6 {
            Some(ProcessAssetsStage::OptimizeCount)
        } else if i == 7 {
            Some(ProcessAssetsStage::OptimizeCompatibility)
        } else if i == 8 {
            Some(ProcessAssetsStage::OptimizeSize)
        } else if i == 9 {
            Some(ProcessAssetsStage::DevTooling)
        } else if i == 10 {
            Some(ProcessAssetsStage::OptimizeInline)
        } else if i == 11 {
            Some(ProcessAssetsStage::Summarize)
        } else if i == 12 {
            Some(ProcessAssetsStage::OptimizeHash)
        } else if i == 13 {
            Some(ProcessAssetsStage::OptimizeTransfer)
        } else if i == 14 {
            Some(ProcessAssetsStage::Analyse)
        } else if i == 15 {
            Some(ProcessAssetsStage::Report)
        } else {
            None
        }
    }

    /// The sub-stage that runs right after this one; none after the last.
    pub open spec fn successor(self) -> Option<ProcessAssetsStage> {
        ProcessAssetsStage::at(self.ordinal() + 1)
    }

    /// The hook that is raised when the sub-stage runs.
    pub open spec fn stage_hook(self) -> Hook {
        match self {
            ProcessAssetsStage::Additional => Hook::ProcessAssetsStageAdditional,
            ProcessAssetsStage::PreProcess => Hook::ProcessAssetsStagePreProcess,
            ProcessAssetsStage::Derived => Hook::ProcessAssetsStageDerived,
            ProcessAssetsStage::Additions => Hook::ProcessAssetsStageAdditions,
            ProcessAssetsStage::Plain => Hook::ProcessAssetsStageNone,
            ProcessAssetsStage::Optimize => Hook::ProcessAssetsStageOptimize,
            ProcessAssetsStage::OptimizeCount => Hook::ProcessAssetsStageOptimizeCount,
            ProcessAssetsStage::OptimizeCompatibility => Hook::ProcessAssetsStageOptimizeCompatibility,
            ProcessAssetsStage::OptimizeSize => Hook::ProcessAssetsStageOptimizeSize,
            ProcessAssetsStage::DevTooling => Hook::ProcessAssetsStageDevTooling,
            ProcessAssetsStage::OptimizeInline => Hook::ProcessAssetsStageOptimizeInline,
            ProcessAssetsStage::Summarize => Hook::ProcessAssetsStageSummarize,
            ProcessAssetsStage::OptimizeHash => Hook::ProcessAssetsStageOptimizeHash,
            ProcessAssetsStage::OptimizeTransfer => Hook::ProcessAssetsStageOptimizeTransfer,
            ProcessAssetsStage::Analyse => Hook::ProcessAssetsStageAnalyse,
            ProcessAssetsStage::Report => Hook::ProcessAssetsStageReport,
        }
    }

    /// The sub-stage that a hook belongs to, if it is one of asset processing.
    pub open spec fn of_hook(hook: Hook) -> Option<ProcessAssetsStage> {
        match hook {
            Hook::ProcessAssetsStageAdditional => Some(ProcessAssetsStage::Additional),
            Hook::ProcessAssetsStagePreProcess => Some(ProcessAssetsStage::PreProcess),
            Hook::ProcessAssetsStageDerived => Some(ProcessAssetsStage::Derived),
            Hook::ProcessAssetsStageAdditions => Some(ProcessAssetsStage::Additions),
            Hook::ProcessAssetsStageNone => Some(ProcessAssetsStage::Plain),
            Hook::ProcessAssetsStageOptimize => Some(ProcessAssetsStage::Optimize),
            Hook::ProcessAssetsStageOptimizeCount => Some(ProcessAssetsStage::OptimizeCount),
            Hook::ProcessAssetsStageOptimizeCompatibility => Some(ProcessAssetsStage::OptimizeCompatibility),
            Hook::ProcessAssetsStageOptimizeSize => Some(ProcessAssetsStage::OptimizeSize),
            Hook::ProcessAssetsStageDevTooling => Some(ProcessAssetsStage::DevTooling),
            Hook::ProcessAssetsStageOptimizeInline => Some(ProcessAssetsStage::OptimizeInline),
            Hook::ProcessAssetsStageSummarize => Some(ProcessAssetsStage::Summarize),
            Hook::ProcessAssetsStageOptimizeHash => Some(ProcessAssetsStage::OptimizeHash),
            Hook::ProcessAssetsStageOptimizeTransfer => Some(ProcessAssetsStage::OptimizeTransfer),
            Hook::ProcessAssetsStageAnalyse => Some(ProcessAssetsStage::Analyse),
            Hook::ProcessAssetsStageReport => Some(ProcessAssetsStage::Report),
            _ => None,
        }
    }

    /// The name of the sub-stage.
    pub open spec fn name(self) -> Seq<char> {
        match self {
            ProcessAssetsStage::Additional => "additional"@,
            ProcessAssetsStage::PreProcess => "preProcess"@,
            ProcessAssetsStage::Derived => "derived"@,
            ProcessAssetsStage::Additions => "additions"@,
            ProcessAssetsStage::Plain => "none"@,
            ProcessAssetsStage::Optimize => "optimize"@,
            ProcessAssetsStage::OptimizeCount => "optimizeCount"@,
            ProcessAssetsStage::OptimizeCompatibility => "optimizeCompatibility"@,
            ProcessAssetsStage::OptimizeSize => "optimizeSize"@,
            ProcessAssetsStage::DevTooling => "devTooling"@,
            ProcessAssetsStage::OptimizeInline => "optimizeInline"@,
            ProcessAssetsStage::Summarize => "summarize"@,
            ProcessAssetsStage::OptimizeHash => "optimizeHash"@,
            ProcessAssetsStage::OptimizeTransfer => "optimizeTransfer"@,
            ProcessAssetsStage::Analyse => "analyse"@,
            ProcessAssetsStage::Report => "report"@,
        }
    }

    /// All sub-stages, in the order in which they run.
    pub open spec fn order() -> Seq<ProcessAssetsStage> {
        seq![
            ProcessAssetsStage::Additional,
            ProcessAssetsStage::PreProcess,
            ProcessAssetsStage::Derived,
            ProcessAssetsStage::Additions,
            ProcessAssetsStage::Plain,
            ProcessAssetsStage::Optimize,
            ProcessAssetsStage::OptimizeCount,
            ProcessAssetsStage::OptimizeCompatibility,
            ProcessAssetsStage::OptimizeSize,
            ProcessAssetsStage::DevTooling,
            ProcessAssetsStage::OptimizeInline,
            ProcessAssetsStage::Summarize,
            ProcessAssetsStage::OptimizeHash,
            ProcessAssetsStage::OptimizeTransfer,
            ProcessAssetsStage::Analyse,
            ProcessAssetsStage::Report,
        ]
    }

    pub fn first() -> (s: ProcessAssetsStage)
        ensures
            s.ordinal() == 0,
            s == ProcessAssetsStage::Additional,
    {
        ProcessAssetsStage::Additional
    }

    pub fn last() -> (s: ProcessAssetsStage)
        ensures
            s.ordinal() == STAGE_COUNT - 1,
            s == ProcessAssetsStage::Report,
    {
        ProcessAssetsStage::Report
    }

    pub fn index(&self) -> (i: u8)
        ensures
            i == self.ordinal(),
            i < STAGE_COUNT,
    {
        match self {
            ProcessAssetsStage::Additional => 0,
            ProcessAssetsStage::PreProcess => 1,
            ProcessAssetsStage::Derived => 2,
            ProcessAssetsStage::Additions => 3,
            ProcessAssetsStage::Plain => 4,
            ProcessAssetsStage::Optimize => 5,
            ProcessAssetsStage::OptimizeCount => 6,
            ProcessAssetsStage::OptimizeCompatibility => 7,
            ProcessAssetsStage::OptimizeSize => 8,
            ProcessAssetsStage::DevTooling => 9,
            ProcessAssetsStage::OptimizeInline => 10,
            ProcessAssetsStage::Summarize => 11,
            ProcessAssetsStage::OptimizeHash => 12,
            ProcessAssetsStage::OptimizeTransfer => 13,
            ProcessAssetsStage::Analyse => 14,
            ProcessAssetsStage::Report => 15,
        }
    }

    pub fn from_index(i: u8) -> (s: Option<ProcessAssetsStage>)
        ensures
            s == ProcessAssetsStage::at(i as nat),
            s is Some <==> i < STAGE_COUNT,
    {
        match i {
            0 => Some(ProcessAssetsStage::Additional),
            1 => Some(ProcessAssetsStage::PreProcess),
            2 => Some(ProcessAssetsStage::Derived),
            3 => Some(ProcessAssetsStage::Additions),
            4 => Some(ProcessAssetsStage::Plain),
            5 => Some(ProcessAssetsStage::Optimize),
            6 => Some(ProcessAssetsStage::OptimizeCount),
            7 => Some(ProcessAssetsStage::OptimizeCompatibility),
            8 => Some(ProcessAssetsStage::OptimizeSize),
            9 => Some(ProcessAssetsStage::DevTooling),
            10 => Some(ProcessAssetsStage::OptimizeInline),
            11 => Some(ProcessAssetsStage::Summarize),
            12 => Some(ProcessAssetsStage::OptimizeHash),
            13 => Some(ProcessAssetsStage::OptimizeTransfer),
            14 => Some(ProcessAssetsStage::Analyse),
            15 => Some(ProcessAssetsStage::Report),
            _ => None,
        }
    }

    pub fn next(&self) -> (s: Option<ProcessAssetsStage>)
        ensures
            s == self.successor(),
            s is None <==> *self == ProcessAssetsStage::Report,
            s matches Some(t) ==> t.ordinal() == self.ordinal() + 1,
    {
        match self {
            ProcessAssetsStage::Additional => Some(ProcessAssetsStage::PreProcess),
            ProcessAssetsStage::PreProcess => Some(ProcessAssetsStage::Derived),
            ProcessAssetsStage::Derived => Some(ProcessAssetsStage::Additions),
            ProcessAssetsStage::Additions => Some(ProcessAssetsStage::Plain),
            ProcessAssetsStage::Plain => Some(ProcessAssetsStage::Optimize),
            ProcessAssetsStage::Optimize => Some(ProcessAssetsStage::OptimizeCount),
            ProcessAssetsStage::OptimizeCount => Some(ProcessAssetsStage::OptimizeCompatibility),
            ProcessAssetsStage::OptimizeCompatibility => Some(ProcessAssetsStage::OptimizeSize),
            ProcessAssetsStage::OptimizeSize => Some(ProcessAssetsStage::DevTooling),
            ProcessAssetsStage::DevTooling => Some(ProcessAssetsStage::OptimizeInline),
            ProcessAssetsStage::OptimizeInline => Some(ProcessAssetsStage::Summarize),
            ProcessAssetsStage::Summarize => Some(ProcessAssetsStage::OptimizeHash),
            ProcessAssetsStage::OptimizeHash => Some(ProcessAssetsStage::OptimizeTransfer),
            ProcessAssetsStage::OptimizeTransfer => Some(ProcessAssetsStage::Analyse),
            ProcessAssetsStage::Analyse => Some(ProcessAssetsStage::Report),
            ProcessAssetsStage::Report => None,
        }
    }

    pub fn hook(&self) -> (h: Hook)
        ensures
            h == self.stage_hook(),
    {
        match self {
            ProcessAssetsStage::Additional => Hook::ProcessAssetsStageAdditional,
            ProcessAssetsStage::PreProcess => Hook::ProcessAssetsStagePreProcess,
            ProcessAssetsStage::Derived => Hook::ProcessAssetsStageDerived,
            ProcessAssetsStage::Additions => Hook::ProcessAssetsStageAdditions,
            ProcessAssetsStage::Plain => Hook::ProcessAssetsStageNone,
            ProcessAssetsStage::Optimize => Hook::ProcessAssetsStageOptimize,
            ProcessAssetsStage::OptimizeCount => Hook::ProcessAssetsStageOptimizeCount,
            ProcessAssetsStage::OptimizeCompatibility => Hook::ProcessAssetsStageOptimizeCompatibility,
            ProcessAssetsStage::OptimizeSize => Hook::ProcessAssetsStageOptimizeSize,
            ProcessAssetsStage::DevTooling => Hook::ProcessAssetsStageDevTooling,
            ProcessAssetsStage::OptimizeInline => Hook::ProcessAssetsStageOptimizeInline,
            ProcessAssetsStage::Summarize => Hook::ProcessAssetsStageSummarize,
            ProcessAssetsStage::OptimizeHash => Hook::ProcessAssetsStageOptimizeHash,
            ProcessAssetsStage::OptimizeTransfer => Hook::ProcessAssetsStageOptimizeTransfer,
            ProcessAssetsStage::Analyse => Hook::ProcessAssetsStageAnalyse,
            ProcessAssetsStage::Report => Hook::ProcessAssetsStageReport,
        }
    }

    pub fn from_hook(hook: Hook) -> (s: Option<ProcessAssetsStage>)
        ensures
            s == ProcessAssetsStage::of_hook(hook),
    {
        match hook {
            Hook::ProcessAssetsStageAdditional => Some(ProcessAssetsStage::Additional),
            Hook::ProcessAssetsStagePreProcess => Some(ProcessAssetsStage::PreProcess),
            Hook::ProcessAssetsStageDerived => Some(ProcessAssetsStage::Derived),
            Hook::ProcessAssetsStageAdditions => Some(ProcessAssetsStage::Additions),
            Hook::ProcessAssetsStageNone => Some(ProcessAssetsStage::Plain),
            Hook::ProcessAssetsStageOptimize => Some(ProcessAssetsStage::Optimize),
            Hook::ProcessAssetsStageOptimizeCount => Some(ProcessAssetsStage::OptimizeCount),
            Hook::ProcessAssetsStageOptimizeCompatibility => Some(ProcessAssetsStage::OptimizeCompatibility),
            Hook::ProcessAssetsStageOptimizeSize => Some(ProcessAssetsStage::OptimizeSize),
            Hook::ProcessAssetsStageDevTooling => Some(ProcessAssetsStage::DevTooling),
            Hook::ProcessAssetsStageOptimizeInline => Some(ProcessAssetsStage::OptimizeInline),
            Hook::ProcessAssetsStageSummarize => Some(ProcessAssetsStage::Summarize),
            Hook::ProcessAssetsStageOptimizeHash => Some(ProcessAssetsStage::OptimizeHash),
            Hook::ProcessAssetsStageOptimizeTransfer => Some(ProcessAssetsStage::OptimizeTransfer),
            Hook::ProcessAssetsStageAnalyse => Some(ProcessAssetsStage::Analyse),
            Hook::ProcessAssetsStageReport => Some(ProcessAssetsStage::Report),
            _ => None,
        }
    }

    pub fn as_str(&self) -> (s: &'static str)
        ensures
            s@ == self.name(),
    {
        match self {
            ProcessAssetsStage::Additional => "additional",
            ProcessAssetsStage::PreProcess => "preProcess",
            ProcessAssetsStage::Derived => "derived",
            ProcessAssetsStage::Additions => "additions",
            ProcessAssetsStage::Plain => "none",
            ProcessAssetsStage::Optimize => "optimize",
            ProcessAssetsStage::OptimizeCount => "optimizeCount",
            ProcessAssetsStage::OptimizeCompatibility => "optimizeCompatibility",
            ProcessAssetsStage::OptimizeSize => "optimizeSize",
            ProcessAssetsStage::DevTooling => "devTooling",
            ProcessAssetsStage::OptimizeInline => "optimizeInline",
            ProcessAssetsStage::Summarize => "summarize",
            ProcessAssetsStage::OptimizeHash => "optimizeHash",
            ProcessAssetsStage::OptimizeTransfer => "optimizeTransfer",
            ProcessAssetsStage::Analyse => "analyse",
            ProcessAssetsStage::Report => "report",
        }
    }

    /// Whether this sub-stage runs before `other`.
    pub fn runs_before(&self, other: &ProcessAssetsStage) -> (b: bool)
        ensures
            b == (self.ordinal() < other.ordinal()),
    {
        self.index() < other.index()
    }

    /// All sub-stages, in the order in which they run.
    pub fn all() -> (v: Vec<ProcessAssetsStage>)
        ensures
            v@ == ProcessAssetsStage::order(),
    {
        let mut v: Vec<ProcessAssetsStage> = Vec::new();
        let mut i: u8 = 0;
        while i < STAGE_COUNT
            invariant
                i <= STAGE_COUNT,
                v@.len() == i,
                v@ =~= ProcessAssetsStage::order().take(i as int),
            decreases STAGE_COUNT - i,
        {
            match ProcessAssetsStage::from_index(i) {
                Some(s) => {
                    v.push(s);
                },
                None => {},
            }
            i = i + 1;
        }
        assert(v@ =~= ProcessAssetsStage::order());
        v
    }
}

/// The order lists every sub-stage once, at its own position, and the hooks
/// of the sub-stages stand in the same order among the hooks.
pub proof fn law_order_is_by_ordinal()
    ensures
        ProcessAssetsStage::order().len() == STAGE_COUNT,
        forall|s: ProcessAssetsStage| #[trigger]
            ProcessAssetsStage::order()[s.ordinal() as int] == s,
        forall|i: int|
            0 <= i < STAGE_COUNT ==> ProcessAssetsStage::at(i as nat) == Some(
                #[trigger] ProcessAssetsStage::order()[i],
            ),
        forall|a: ProcessAssetsStage, b: ProcessAssetsStage|
            a.ordinal() < b.ordinal() <==> #[trigger] a.stage_hook().ordinal()
                < #[trigger] b.stage_hook().ordinal(),
{
}

/// A sub-stage and its hook determine each other.
pub proof fn law_stage_of_hook(s: ProcessAssetsStage, h: Hook)
    ensures
        ProcessAssetsStage::of_hook(s.stage_hook()) == Some(s),
        ProcessAssetsStage::of_hook(h) == Some(s) <==> h == s.stage_hook(),
{
}

} // verus!
