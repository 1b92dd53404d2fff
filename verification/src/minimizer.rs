//! The script minimizer's choices: which files it works on, how it treats
//! each of them, and where the comments it takes out are kept.
//!
//! To minimize a script is the work of the embedding program.

use crate::contract::opt_text;
use crate::pattern::pattern_matches;
use crate::pattern::InvalidPattern;
use crate::pattern::Pattern;
use crate::text::chars_of;
use crate::text::starts_with;
use vstd::prelude::*;
use vstd::string::StringSliceAdditionalSpecFns;
use vstd::utf8::is_char_boundary;

verus! {

/// One condition on a file name.
#[derive(Debug)]
pub enum SwcJsMinimizerRule {
    /// The name begins with this text.
    String(String),
    /// The pattern matches somewhere in the name.
    Regexp(Pattern),
}

/// The mathematical content of a [`SwcJsMinimizerRule`].
pub ghost enum RuleModel {
    String(Seq<char>),
    Regexp(Seq<char>),
}

impl View for SwcJsMinimizerRule {
    type V = RuleModel;

    open spec fn view(&self) -> RuleModel {
        match *self {
            SwcJsMinimizerRule::String(s) => RuleModel::String(s@),
            SwcJsMinimizerRule::Regexp(p) => RuleModel::Regexp(p@),
        }
    }
}

impl RuleModel {
    /// Whether the file name `data` meets the condition.
    pub open spec fn matches(self, data: Seq<char>) -> bool {
        match self {
            RuleModel::String(s) => s.is_prefix_of(data),
            RuleModel::Regexp(p) => pattern_matches(p, data),
        }
    }
}

impl SwcJsMinimizerRule {
    pub fn try_match(&self, data: &str) -> (r: Result<bool, InvalidPattern>)
        ensures
            r == Ok::<bool, InvalidPattern>(self@.matches(data@)),
    {
        match self {
            SwcJsMinimizerRule::String(s) => Ok(starts_with(data, s.as_str())),
            SwcJsMinimizerRule::Regexp(p) => Ok(p.test(data)),
        }
    }
}

/// A condition on a file name, or several of which one must hold.
#[derive(Debug)]
pub enum SwcJsMinimizerRules {
    String(String),
    Regexp(Pattern),
    Array(Vec<SwcJsMinimizerRule>),
}

/// The mathematical content of a [`SwcJsMinimizerRules`].
pub ghost enum RulesModel {
    String(Seq<char>),
    Regexp(Seq<char>),
    Array(Seq<RuleModel>),
}

impl View for SwcJsMinimizerRules {
    type V = RulesModel;

    open spec fn view(&self) -> RulesModel {
        match *self {
            SwcJsMinimizerRules::String(s) => RulesModel::String(s@),
            SwcJsMinimizerRules::Regexp(p) => RulesModel::Regexp(p@),
            SwcJsMinimizerRules::Array(l) => RulesModel::Array(
                Seq::new(l@.len(), |i: int| l@[i]@),
            ),
        }
    }
}

impl RulesModel {
    /// Whether the file name `data` meets the condition: the one condition,
    /// or one of the list.
    pub open spec fn matches(self, data: Seq<char>) -> bool {
        match self {
            RulesModel::String(s) => s.is_prefix_of(data),
            RulesModel::Regexp(p) => pattern_matches(p, data),
            RulesModel::Array(l) => exists|i: int| 0 <= i < l.len() && (#[trigger] l[i]).matches(data),
        }
    }
}

impl SwcJsMinimizerRules {
    pub fn try_match(&self, data: &str) -> (r: Result<bool, InvalidPattern>)
        ensures
            r == Ok::<bool, InvalidPattern>(self@.matches(data@)),
    {
        match self {
            SwcJsMinimizerRules::String(s) => Ok(starts_with(data, s.as_str())),
            SwcJsMinimizerRules::Regexp(p) => Ok(p.test(data)),
            SwcJsMinimizerRules::Array(l) => {
                let n: usize = l.len();
                let mut i: usize = 0;
                while i < n
                    invariant
                        i <= n,
                        n == l@.len(),
                        self@ == RulesModel::Array(Seq::new(l@.len(), |k: int| l@[k]@)),
                        forall|k: int| 0 <= k < i ==> !(#[trigger] l@[k])@.matches(data@),
                    decreases n - i,
                {
                    match l[i].try_match(data) {
                        Ok(true) => {
                            assert(self@->Array_0[i as int].matches(data@));
                            return Ok(true);
                        },
                        Ok(false) => {},
                        Err(e) => {
                            return Err(e);
                        },
                    }
                    i = i + 1;
                }
                assert(forall|k: int| 0 <= k < n ==> self@->Array_0[k] == (#[trigger] l@[k])@);
                Ok(false)
            },
        }
    }
}

/// The content of an optional condition.
pub open spec fn opt_rules(r: Option<SwcJsMinimizerRules>) -> Option<RulesModel> {
    match r {
        Some(r) => Some(r@),
        None => None,
    }
}

/// A switch, or the settings that stand in its place, written as JSON.
#[derive(Debug, Clone, PartialEq, Eq)]
pub enum BoolOrData {
    Bool(bool),
    Data(String),
}

/// The mathematical content of a [`BoolOrData`].
pub ghost enum BoolOrDataModel {
    Bool(bool),
    Data(Seq<char>),
}

impl View for BoolOrData {
    type V = BoolOrDataModel;

    open spec fn view(&self) -> BoolOrDataModel {
        match *self {
            BoolOrData::Bool(b) => BoolOrDataModel::Bool(b),
            BoolOrData::Data(d) => BoolOrDataModel::Data(d@),
        }
    }
}

impl BoolOrData {
    pub fn from_bool(b: bool) -> (r: BoolOrData)
        ensures
            r@ == BoolOrDataModel::Bool(b),
    {
        BoolOrData::Bool(b)
    }

    pub fn copy(&self) -> (c: BoolOrData)
        ensures
            c == *self,
    {
        match self {
            BoolOrData::Bool(b) => BoolOrData::Bool(*b),
            BoolOrData::Data(d) => BoolOrData::Data(d.clone()),
        }
    }
}

/// How the minimizer is set up.
#[derive(Debug)]
pub struct SwcJsMinimizerRspackPluginOptions {
    /// Which comments are taken out into a file of their own: `true` for
    /// the usual ones, or a pattern between slashes.
    pub extract_comments: Option<String>,
    pub compress: BoolOrData,
    pub mangle: BoolOrData,
    /// The output format, written as JSON.
    pub format: String,
    /// A file must meet this condition.
    pub test: Option<SwcJsMinimizerRules>,
    /// A file must meet this condition too.
    pub included: Option<SwcJsMinimizerRules>,
    /// A file must not meet this condition.
    pub excluded: Option<SwcJsMinimizerRules>,
    /// Whether scripts are modules; where unset, each file decides.
    pub module: Option<bool>,
}

/// Whether a file is chosen, from what the three conditions say of it:
/// `test` and `included` must hold where they are set, `excluded` must not.
pub open spec fn chosen(test: Option<bool>, included: Option<bool>, excluded: Option<bool>) -> bool {
    test != Some(false) && included != Some(false) && excluded != Some(true)
}

/// What an optional condition says of the file name `data`.
pub open spec fn verdict(rules: Option<RulesModel>, data: Seq<char>) -> Option<bool> {
    match rules {
        Some(r) => Some(r.matches(data)),
        None => None,
    }
}

/// Whether a file is chosen, from what the three conditions say of it.
pub fn is_chosen(test: Option<bool>, included: Option<bool>, excluded: Option<bool>) -> (b: bool)
    ensures
        b == chosen(test, included, excluded),
{
    !matches!(test, Some(false)) && !matches!(included, Some(false)) && !matches!(
        excluded,
        Some(true)
    )
}

/// What an optional condition says of the file name `data`.
fn judge(rules: &Option<SwcJsMinimizerRules>, data: &str) -> (r: Result<Option<bool>, InvalidPattern>)
    ensures
        r == Ok::<Option<bool>, InvalidPattern>(verdict(opt_rules(*rules), data@)),
{
    match rules {
        Some(r) => {
            match r.try_match(data) {
                Ok(b) => Ok(Some(b)),
                Err(e) => Err(e),
            }
        },
        None => Ok(None),
    }
}

/// Whether the conditions of `options` choose the file `name`.
pub fn match_object(options: &SwcJsMinimizerRspackPluginOptions, name: &str) -> (r: Result<
    bool,
    InvalidPattern,
>)
    ensures
        r == Ok::<bool, InvalidPattern>(
            chosen(
                verdict(opt_rules(options.test), name@),
                verdict(opt_rules(options.included), name@),
                verdict(opt_rules(options.excluded), name@),
            ),
        ),
{
    let test = match judge(&options.test, name) {
        Ok(v) => v,
        Err(e) => {
            return Err(e);
        },
    };
    let included = match judge(&options.included, name) {
        Ok(v) => v,
        Err(e) => {
            return Err(e);
        },
    };
    let excluded = match judge(&options.excluded, name) {
        Ok(v) => v,
        Err(e) => {
            return Err(e);
        },
    };
    Ok(is_chosen(test, included, excluded))
}

/// Whether `name` ends as the name of a script does.
pub open spec fn script_name(name: Seq<char>) -> bool {
    ".js"@.is_suffix_of(name) || ".cjs"@.is_suffix_of(name) || ".mjs"@.is_suffix_of(name)
}

/// Whether `name` ends with `.mjs`, as the name of a module script does.
pub open spec fn module_script_name(name: Seq<char>) -> bool {
    ".mjs"@.is_suffix_of(name)
}

/// Whether `text` ends with `suffix`.
fn ends_with(text: &Vec<char>, suffix: &str) -> (b: bool)
    ensures
        b == suffix@.is_suffix_of(text@),
{
    let tail = chars_of(suffix);
    if tail.len() > text.len() {
        return false;
    }
    let n: usize = tail.len();
    let from: usize = text.len() - n;
    let mut i: usize = 0;
    while i < n
        invariant
            i <= n,
            n == tail@.len(),
            from + n == text@.len(),
            text@.len() <= usize::MAX,
            tail@ == suffix@,
            forall|k: int| 0 <= k < i ==> tail@[k] == text@[from + k],
        decreases n - i,
    {
        if tail[i] != text[from + i] {
            assert(text@.subrange(from as int, text@.len() as int)[i as int] == text@[from + i]);
            return false;
        }
        i = i + 1;
    }
    assert(tail@ =~= text@.subrange(from as int, text@.len() as int));
    true
}

pub fn is_script_name(name: &str) -> (b: bool)
    ensures
        b == script_name(name@),
{
    let text = chars_of(name);
    ends_with(&text, ".js") || ends_with(&text, ".cjs") || ends_with(&text, ".mjs")
}

/// Whether the minimizer works on the file `name`: a script that the
/// conditions choose and that is not minimized yet.
pub fn is_candidate(options: &SwcJsMinimizerRspackPluginOptions, name: &str, minimized: bool) -> (b:
    bool)
    ensures
        b == (script_name(name@) && chosen(
            verdict(opt_rules(options.test), name@),
            verdict(opt_rules(options.included), name@),
            verdict(opt_rules(options.excluded), name@),
        ) && !minimized),
{
    if !is_script_name(name) {
        return false;
    }
    let matched = match match_object(options, name) {
        Ok(b) => b,
        Err(_) => false,
    };
    matched && !minimized
}

/// Whether a script is treated as a module: as the options say; else as
/// the file says of itself; else by its name.
pub open spec fn treated_as_module(
    configured: Option<bool>,
    declared: Option<bool>,
    name: Seq<char>,
) -> bool {
    match configured {
        Some(m) => m,
        None => match declared {
            Some(m) => m,
            None => module_script_name(name),
        },
    }
}

pub fn is_module(configured: Option<bool>, declared: Option<bool>, name: &str) -> (b: bool)
    ensures
        b == treated_as_module(configured, declared, name@),
{
    if let Some(m) = configured {
        m
    } else if let Some(m) = declared {
        m
    } else {
        let text = chars_of(name);
        ends_with(&text, ".mjs")
    }
}

/// How to attach a source map.
#[derive(Debug, Clone, PartialEq, Eq)]
pub struct TerserSourceMapOption {
    pub filename: Option<String>,
    pub url: Option<String>,
    pub root: Option<String>,
    pub content: Option<String>,
}

/// Whether a source map is made, or how it is attached.
#[derive(Debug, Clone, PartialEq, Eq)]
pub enum SourceMapSetting {
    Bool(bool),
    Data(TerserSourceMapOption),
}

/// The mathematical content of a [`SourceMapSetting`].
pub ghost enum SourceMapModel {
    Bool(bool),
    Data {
        filename: Option<Seq<char>>,
        url: Option<Seq<char>>,
        root: Option<Seq<char>>,
        content: Option<Seq<char>>,
    },
}

impl View for SourceMapSetting {
    type V = SourceMapModel;

    open spec fn view(&self) -> SourceMapModel {
        match *self {
            SourceMapSetting::Bool(b) => SourceMapModel::Bool(b),
            SourceMapSetting::Data(d) => SourceMapModel::Data {
                filename: opt_text(d.filename),
                url: opt_text(d.url),
                root: opt_text(d.root),
                content: opt_text(d.content),
            },
        }
    }
}

impl SourceMapSetting {
    pub fn from_bool(b: bool) -> (r: SourceMapSetting)
        ensures
            r@ == SourceMapModel::Bool(b),
    {
        SourceMapSetting::Bool(b)
    }
}

/// How one script is minimized.
#[derive(Debug, Clone, PartialEq, Eq)]
pub struct JsMinifyOptions {
    pub compress: BoolOrData,
    pub mangle: BoolOrData,
    pub format: String,
    pub keep_class_names: bool,
    pub keep_fn_names: bool,
    pub module: bool,
    pub safari10: bool,
    pub toplevel: bool,
    pub source_map: SourceMapSetting,
    pub output_path: Option<String>,
    pub inline_sources_content: bool,
    pub emit_source_map_columns: bool,
}

/// The mathematical content of a [`JsMinifyOptions`].
pub ghost struct MinifyModel {
    pub compress: BoolOrDataModel,
    pub mangle: BoolOrDataModel,
    pub format: Seq<char>,
    pub keep_class_names: bool,
    pub keep_fn_names: bool,
    pub module: bool,
    pub safari10: bool,
    pub toplevel: bool,
    pub source_map: SourceMapModel,
    pub output_path: Option<Seq<char>>,
    pub inline_sources_content: bool,
    pub emit_source_map_columns: bool,
}

impl View for JsMinifyOptions {
    type V = MinifyModel;

    open spec fn view(&self) -> MinifyModel {
        MinifyModel {
            compress: self.compress@,
            mangle: self.mangle@,
            format: self.format@,
            keep_class_names: self.keep_class_names,
            keep_fn_names: self.keep_fn_names,
            module: self.module,
            safari10: self.safari10,
            toplevel: self.toplevel,
            source_map: self.source_map@,
            output_path: opt_text(self.output_path),
            inline_sources_content: self.inline_sources_content,
            emit_source_map_columns: self.emit_source_map_columns,
        }
    }
}

/// How the script `name` is minimized under `options`. `has_source_map`
/// says whether the script came with a source map, `declared` what the
/// file says of being a module, `columns` whether the source map is to
/// hold columns. The sources are always put into the map.
pub fn minify_options_for(
    options: &SwcJsMinimizerRspackPluginOptions,
    name: &str,
    has_source_map: bool,
    declared: Option<bool>,
    columns: bool,
) -> (m: JsMinifyOptions)
    ensures
        m@ == (MinifyModel {
            compress: options.compress@,
            mangle: options.mangle@,
            format: options.format@,
            keep_class_names: false,
            keep_fn_names: false,
            module: treated_as_module(options.module, declared, name@),
            safari10: false,
            toplevel: false,
            source_map: SourceMapModel::Bool(has_source_map),
            output_path: None,
            inline_sources_content: true,
            emit_source_map_columns: columns,
        }),
{
    JsMinifyOptions {
        compress: options.compress.copy(),
        mangle: options.mangle.copy(),
        format: options.format.clone(),
        keep_class_names: false,
        keep_fn_names: false,
        module: is_module(options.module, declared, name),
        safari10: false,
        toplevel: false,
        source_map: SourceMapSetting::from_bool(has_source_map),
        output_path: None,
        inline_sources_content: true,
        emit_source_map_columns: columns,
    }
}

/// The name of the file that keeps the comments taken out of `name`.
pub open spec fn comments_file_name(name: Seq<char>) -> Seq<char> {
    name + ".LICENSE.txt"@
}

/// The line that a minimized script carries in place of its comments;
/// `relative` is the name of the comments file as seen from the script.
pub open spec fn license_banner(relative: Seq<char>) -> Seq<char> {
    "/*! For license information please see "@ + relative + " */"@
}

pub fn comments_file_name_of(name: &str) -> (file: String)
    ensures
        file@ == comments_file_name(name@),
{
    String::from_str(name).concat(".LICENSE.txt")
}

pub fn license_banner_for(relative: &str) -> (banner: String)
    ensures
        banner@ == license_banner(relative@),
{
    String::from_str("/*! For license information please see ").concat(relative).concat(" */")
}

/// The pattern for the comments that are taken out by default.
pub open spec fn default_comments_pattern() -> Seq<char> {
    "@preserve|@lic|@cc_on|^\\**!"@
}

/// The text of the pattern that the setting `condition` stands for: the
/// default pattern for `true`; else the setting without its first byte and
/// its last two. None where the setting is too short for that, or where
/// that would cut a character in two.
pub open spec fn comments_pattern(condition: &str) -> Option<Seq<u8>> {
    let bytes = condition.spec_bytes();
    if condition@ == "true"@ {
        Some("@preserve|@lic|@cc_on|^\\**!".spec_bytes())
    } else if bytes.len() >= 3 && is_char_boundary(bytes, 1) && is_char_boundary(
        bytes,
        bytes.len() - 2,
    ) {
        Some(bytes.subrange(1, bytes.len() - 2))
    } else {
        None
    }
}

/// The text of the pattern that the setting `condition` stands for.
pub fn extract_comments_pattern(condition: &str) -> (pattern: Option<&str>)
    ensures
        match comments_pattern(condition) {
            Some(bytes) => pattern is Some && pattern->Some_0.spec_bytes() == bytes,
            None => pattern is None,
        },
{
    if crate::text::str_eq(condition, "true") {
        return Some("@preserve|@lic|@cc_on|^\\**!");
    }
    let n: usize = condition.as_bytes().len();
    if n < 3 || !condition.is_char_boundary(1) || !condition.is_char_boundary(n - 2) {
        return None;
    }
    let (head, _) = condition.split_at(n - 2);
    proof {
        let bytes = condition.spec_bytes();
        vstd::utf8::encode_utf8_valid_utf8(condition@);
        vstd::utf8::encode_utf8_valid_utf8(head@);
        assert(head.spec_bytes() =~= bytes.subrange(0, n - 2));
        assert(is_char_boundary(head.spec_bytes(), 1)) by {
            lemma_boundary_in_head(bytes, 1, n - 2);
        }
    }
    let (_, middle) = head.split_at(1);
    proof {
        assert(middle.spec_bytes() =~= condition.spec_bytes().subrange(1, n - 2));
    }
    Some(middle)
}

/// A place where a text may be cut is also such a place in the beginning
/// of the text up to a later such place.
proof fn lemma_boundary_in_head(bytes: Seq<u8>, at: int, end: int)
    requires
        vstd::utf8::valid_utf8(bytes),
        0 <= at <= end <= bytes.len(),
        is_char_boundary(bytes, at),
        is_char_boundary(bytes, end),
    ensures
        is_char_boundary(bytes.subrange(0, end), at),
{
    let head = bytes.subrange(0, end);
    vstd::utf8::valid_utf8_split(bytes, end);
    vstd::utf8::is_char_boundary_start_end_of_seq(head);
    if at < end {
        vstd::utf8::is_char_boundary_iff_not_is_continuation_byte(bytes, at);
        vstd::utf8::is_char_boundary_iff_not_is_continuation_byte(head, at);
    }
}

/// The script minimizer.
#[derive(Debug)]
pub struct SwcJsMinimizerRspackPlugin {
    options: SwcJsMinimizerRspackPluginOptions,
}

impl SwcJsMinimizerRspackPlugin {
    /// The options of the minimizer.
    pub closed spec fn options(&self) -> SwcJsMinimizerRspackPluginOptions {
        self.options
    }

    pub fn new(options: SwcJsMinimizerRspackPluginOptions) -> (plugin: SwcJsMinimizerRspackPlugin)
        ensures
            plugin.options() == options,
    {
        SwcJsMinimizerRspackPlugin { options }
    }

    pub fn name(&self) -> (name: &'static str)
        ensures
            name@ == "rspack.SwcJsMinimizerRspackPlugin"@,
    {
        "rspack.SwcJsMinimizerRspackPlugin"
    }

    pub fn get_options(&self) -> (options: &SwcJsMinimizerRspackPluginOptions)
        ensures
            *options == self.options(),
    {
        &self.options
    }
}

} // verus!
