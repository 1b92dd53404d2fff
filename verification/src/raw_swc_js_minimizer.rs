//! The minimizer's settings as the embedding program hands them over, and
//! how the settings that the minimizer works with are made of them.

use crate::contract::opt_text;
use crate::description::is_json;
use crate::description::json_parsed;
use crate::minimizer::opt_rules;
use crate::minimizer::BoolOrData;
use crate::minimizer::BoolOrDataModel;
use crate::minimizer::RuleModel;
use crate::minimizer::RulesModel;
use crate::minimizer::SwcJsMinimizerRspackPluginOptions;
use crate::minimizer::SwcJsMinimizerRule;
use crate::minimizer::SwcJsMinimizerRules;
use crate::pattern::valid_pattern;
use crate::pattern::Pattern;
use vstd::prelude::*;
use vstd::utf8::encode_utf8;

verus! {

/// One condition on a file name as it is handed over: a text, or the
/// source of a pattern.
#[derive(Debug, Clone, PartialEq, Eq)]
pub enum RawSwcJsMinimizerRule {
    String(String),
    Regexp(String),
}

/// A condition, or several, as they are handed over.
#[derive(Debug, Clone, PartialEq, Eq)]
pub enum RawSwcJsMinimizerRules {
    String(String),
    Regexp(String),
    Array(Vec<RawSwcJsMinimizerRule>),
}

/// The settings as they are handed over: what the minimizer's compiler is
/// to read comes as JSON text.
#[derive(Debug, Clone, PartialEq, Eq)]
pub struct RawSwcJsMinimizerRspackPluginOptions {
    pub extract_comments: Option<String>,
    pub compress: BoolOrData,
    pub mangle: BoolOrData,
    pub format: String,
    pub module: Option<bool>,
    pub test: Option<RawSwcJsMinimizerRules>,
    pub included: Option<RawSwcJsMinimizerRules>,
    pub excluded: Option<RawSwcJsMinimizerRules>,
}

/// Why settings were refused.
#[derive(Debug, Clone, PartialEq, Eq)]
pub enum InvalidOptions {
    /// This text is no JSON.
    Json(String),
    /// This text is no pattern.
    Pattern(String),
}

/// The mathematical content of an [`InvalidOptions`].
pub ghost enum InvalidModel {
    Json(Seq<char>),
    Pattern(Seq<char>),
}

impl View for InvalidOptions {
    type V = InvalidModel;

    open spec fn view(&self) -> InvalidModel {
        match *self {
            InvalidOptions::Json(t) => InvalidModel::Json(t@),
            InvalidOptions::Pattern(t) => InvalidModel::Pattern(t@),
        }
    }
}

impl View for RawSwcJsMinimizerRule {
    type V = RuleModel;

    /// The condition that the raw condition stands for.
    open spec fn view(&self) -> RuleModel {
        match *self {
            RawSwcJsMinimizerRule::String(s) => RuleModel::String(s@),
            RawSwcJsMinimizerRule::Regexp(s) => RuleModel::Regexp(s@),
        }
    }
}

impl View for RawSwcJsMinimizerRules {
    type V = RulesModel;

    /// The condition that the raw condition stands for.
    open spec fn view(&self) -> RulesModel {
        match *self {
            RawSwcJsMinimizerRules::String(s) => RulesModel::String(s@),
            RawSwcJsMinimizerRules::Regexp(s) => RulesModel::Regexp(s@),
            RawSwcJsMinimizerRules::Array(l) => RulesModel::Array(
                Seq::new(l@.len(), |i: int| l@[i]@),
            ),
        }
    }
}

/// The pattern of `rule` that is refused, if it has one.
pub open spec fn bad_pattern(rule: RuleModel) -> Option<Seq<char>> {
    match rule {
        RuleModel::Regexp(source) if !valid_pattern(source) => Some(source),
        _ => None,
    }
}

/// The first pattern among the first `upto` of `rules` that is refused.
pub open spec fn first_bad_within(rules: Seq<RuleModel>, upto: int) -> Option<Seq<char>>
    decreases upto,
{
    if upto <= 0 {
        None
    } else {
        match first_bad_within(rules, upto - 1) {
            Some(p) => Some(p),
            None => bad_pattern(rules[upto - 1]),
        }
    }
}

/// The first pattern of `rules` that is refused, if there is one.
pub open spec fn first_bad_pattern(rules: Option<RulesModel>) -> Option<Seq<char>> {
    match rules {
        None => None,
        Some(RulesModel::String(_)) => None,
        Some(RulesModel::Regexp(source)) => bad_pattern(RuleModel::Regexp(source)),
        Some(RulesModel::Array(l)) => first_bad_within(l, l.len() as int),
    }
}

/// The JSON text of `setting` that is no JSON, if there is one.
pub open spec fn bad_json(setting: BoolOrDataModel) -> Option<Seq<char>> {
    match setting {
        BoolOrDataModel::Data(text) if json_parsed(encode_utf8(text)) is None => Some(text),
        _ => None,
    }
}

/// The content of an optional raw condition.
pub open spec fn opt_raw_rules(r: Option<RawSwcJsMinimizerRules>) -> Option<RulesModel> {
    match r {
        Some(r) => Some(r@),
        None => None,
    }
}

impl RawSwcJsMinimizerRspackPluginOptions {
    /// Why the settings are refused, if they are: the first text that is
    /// no JSON among the settings for compressing, for mangling and for
    /// the format; else the first pattern that is refused among the
    /// conditions to test, to take in and to leave out.
    pub open spec fn refusal(self) -> Option<InvalidModel> {
        if bad_json(self.compress@) is Some {
            Some(InvalidModel::Json(bad_json(self.compress@)->Some_0))
        } else if bad_json(self.mangle@) is Some {
            Some(InvalidModel::Json(bad_json(self.mangle@)->Some_0))
        } else if json_parsed(encode_utf8(self.format@)) is None {
            Some(InvalidModel::Json(self.format@))
        } else if first_bad_pattern(opt_raw_rules(self.test)) is Some {
            Some(InvalidModel::Pattern(first_bad_pattern(opt_raw_rules(self.test))->Some_0))
        } else if first_bad_pattern(opt_raw_rules(self.included)) is Some {
            Some(InvalidModel::Pattern(first_bad_pattern(opt_raw_rules(self.included))->Some_0))
        } else if first_bad_pattern(opt_raw_rules(self.excluded)) is Some {
            Some(InvalidModel::Pattern(first_bad_pattern(opt_raw_rules(self.excluded))->Some_0))
        } else {
            None
        }
    }
}

/// A switch as it is, or settings once they are seen to be JSON.
pub fn try_deserialize_into(value: &BoolOrData) -> (r: Result<BoolOrData, InvalidOptions>)
    ensures
        match bad_json(value@) {
            Some(text) => r is Err && r->Err_0@ == InvalidModel::Json(text),
            None => r is Ok && r->Ok_0 == *value,
        },
{
    match value {
        BoolOrData::Bool(b) => Ok(BoolOrData::from_bool(*b)),
        BoolOrData::Data(text) => {
            if is_json(text.as_str()) {
                Ok(BoolOrData::Data(text.clone()))
            } else {
                Err(InvalidOptions::Json(text.clone()))
            }
        },
    }
}

impl SwcJsMinimizerRule {
    /// The condition that `raw` stands for; the source of a pattern is
    /// compiled.
    pub fn from_raw(raw: &RawSwcJsMinimizerRule) -> (r: Result<SwcJsMinimizerRule, InvalidOptions>)
        ensures
            match bad_pattern(raw@) {
                Some(source) => r is Err && r->Err_0@ == InvalidModel::Pattern(source),
                None => r is Ok && r->Ok_0@ == raw@,
            },
    {
        match raw {
            RawSwcJsMinimizerRule::String(s) => Ok(SwcJsMinimizerRule::String(s.clone())),
            RawSwcJsMinimizerRule::Regexp(source) => match Pattern::new(source.as_str()) {
                Ok(p) => Ok(SwcJsMinimizerRule::Regexp(p)),
                Err(e) => Err(InvalidOptions::Pattern(e.pattern)),
            },
        }
    }
}

impl SwcJsMinimizerRules {
    /// The condition that `raw` stands for; sources of patterns are
    /// compiled, and the first that is refused is the error.
    pub fn from_raw(raw: &RawSwcJsMinimizerRules) -> (r: Result<
        SwcJsMinimizerRules,
        InvalidOptions,
    >)
        ensures
            match first_bad_pattern(Some(raw@)) {
                Some(source) => r is Err && r->Err_0@ == InvalidModel::Pattern(source),
                None => r is Ok && r->Ok_0@ == raw@,
            },
    {
        match raw {
            RawSwcJsMinimizerRules::String(s) => Ok(SwcJsMinimizerRules::String(s.clone())),
            RawSwcJsMinimizerRules::Regexp(source) => match Pattern::new(source.as_str()) {
                Ok(p) => Ok(SwcJsMinimizerRules::Regexp(p)),
                Err(e) => Err(InvalidOptions::Pattern(e.pattern)),
            },
            RawSwcJsMinimizerRules::Array(l) => {
                let ghost models = Seq::new(l@.len(), |i: int| l@[i]@);
                let mut rules: Vec<SwcJsMinimizerRule> = Vec::new();
                let n: usize = l.len();
                let mut i: usize = 0;
                while i < n
                    invariant
                        i <= n,
                        n == l@.len(),
                        models == Seq::new(l@.len(), |k: int| l@[k]@),
                        raw@ == RulesModel::Array(models),
                        first_bad_within(models, i as int) is None,
                        rules@.len() == i,
                        forall|k: int| 0 <= k < i ==> (#[trigger] rules@[k])@ == models[k],
                    decreases n - i,
                {
                    match SwcJsMinimizerRule::from_raw(&l[i]) {
                        Ok(rule) => {
                            rules.push(rule);
                        },
                        Err(e) => {
                            proof {
                                lemma_first_bad_stays(models, i + 1, n as int);
                            }
                            return Err(e);
                        },
                    }
                    i = i + 1;
                }
                let made = SwcJsMinimizerRules::Array(rules);
                assert(made@->Array_0 =~= models);
                Ok(made)
            },
        }
    }
}

/// Once a refused pattern is found among the first conditions, later
/// conditions change nothing.
proof fn lemma_first_bad_stays(rules: Seq<RuleModel>, found: int, upto: int)
    requires
        0 <= found <= upto,
        first_bad_within(rules, found) is Some,
    ensures
        first_bad_within(rules, upto) == first_bad_within(rules, found),
    decreases upto - found,
{
    if found < upto {
        lemma_first_bad_stays(rules, found, upto - 1);
    }
}

/// The condition that an optional raw condition stands for.
fn into_condition(c: &Option<RawSwcJsMinimizerRules>) -> (r: Result<
    Option<SwcJsMinimizerRules>,
    InvalidOptions,
>)
    ensures
        match first_bad_pattern(opt_raw_rules(*c)) {
            Some(source) => r is Err && r->Err_0@ == InvalidModel::Pattern(source),
            None => r is Ok && opt_rules(r->Ok_0) == opt_raw_rules(*c),
        },
{
    match c {
        None => Ok(None),
        Some(raw) => match SwcJsMinimizerRules::from_raw(raw) {
            Ok(rules) => Ok(Some(rules)),
            Err(e) => Err(e),
        },
    }
}

impl SwcJsMinimizerRspackPluginOptions {
    /// The settings that the minimizer works with, made of the settings as
    /// they are handed over. What is to be JSON must be JSON, and what is
    /// to be a pattern must compile; else the first text that fails is the
    /// error.
    pub fn try_from(value: RawSwcJsMinimizerRspackPluginOptions) -> (r: Result<
        SwcJsMinimizerRspackPluginOptions,
        InvalidOptions,
    >)
        ensures
            match value.refusal() {
                Some(e) => r is Err && r->Err_0@ == e,
                None => r is Ok && {
                    let o = r->Ok_0;
                    &&& opt_text(o.extract_comments) == opt_text(value.extract_comments)
                    &&& o.compress@ == value.compress@
                    &&& o.mangle@ == value.mangle@
                    &&& o.format@ == value.format@
                    &&& o.module == value.module
                    &&& opt_rules(o.test) == opt_raw_rules(value.test)
                    &&& opt_rules(o.included) == opt_raw_rules(value.included)
                    &&& opt_rules(o.excluded) == opt_raw_rules(value.excluded)
                },
            },
    {
        let compress = match try_deserialize_into(&value.compress) {
            Ok(v) => v,
            Err(e) => {
                return Err(e);
            },
        };
        let mangle = match try_deserialize_into(&value.mangle) {
            Ok(v) => v,
            Err(e) => {
                return Err(e);
            },
        };
        if !is_json(value.format.as_str()) {
            return Err(InvalidOptions::Json(value.format));
        }
        let test = match into_condition(&value.test) {
            Ok(v) => v,
            Err(e) => {
                return Err(e);
            },
        };
        let included = match into_condition(&value.included) {
            Ok(v) => v,
            Err(e) => {
                return Err(e);
            },
        };
        let excluded = match into_condition(&value.excluded) {
            Ok(v) => v,
            Err(e) => {
                return Err(e);
            },
        };
        Ok(
            SwcJsMinimizerRspackPluginOptions {
                extract_comments: value.extract_comments,
                compress,
                mangle,
                format: value.format,
                test,
                included,
                excluded,
                module: value.module,
            },
        )
    }
}

} // verus!
