//! The plugin that lets a build consume modules that are shared between
//! builds: which requests it takes over, and with which options.
//!
//! To resolve a request, and to read a description file, is the work of the
//! embedding program; it hands in what it found.

use crate::consume::copy_opt_version;
use crate::consume::ConsumeModel;
use crate::consume::ConsumeOptions;
use crate::consume::VersionModel;
use crate::contract::copy_opt;
use crate::contract::opt_text;
use crate::description::get_required_version_from_description_file;
use crate::description::required_version;
use crate::request::absolute_request;
use crate::request::is_absolute_request;
use crate::request::is_prefix_request;
use crate::request::is_relative_request;
use crate::request::package_name;
use crate::request::package_name_of;
use crate::request::prefix_request;
use crate::request::relative_request;
use crate::shared_map::consume_map_entries;
use crate::shared_map::map_get;
use crate::shared_map::map_insert;
use crate::shared_map::map_keys;
use crate::shared_map::map_new;
use rustc_hash::FxHashMap;
use crate::text::starts_with;
use crate::text::tail_from;
use vstd::prelude::*;

verus! {

/// The form of a request for a shared module, which decides how it is matched.
#[derive(Debug, Clone, Copy, PartialEq, Eq, Hash, Structural)]
pub enum RequestForm {
    /// Relative to the build's directory: matched by what it resolves to.
    Relative,
    /// Absolute: matched as it stands against resolved resources.
    Absolute,
    /// Ends in a slash: matches every request that begins with it.
    Prefix,
    /// The name of a module: matched as it stands against requests.
    Module,
}

/// The form of the request `s`.
pub open spec fn form_of(s: Seq<char>) -> RequestForm {
    if relative_request(s) {
        RequestForm::Relative
    } else if absolute_request(s) {
        RequestForm::Absolute
    } else if prefix_request(s) {
        RequestForm::Prefix
    } else {
        RequestForm::Module
    }
}

pub fn request_form(request: &str) -> (f: RequestForm)
    ensures
        f == form_of(request@),
{
    if is_relative_request(request) {
        RequestForm::Relative
    } else if is_absolute_request(request) {
        RequestForm::Absolute
    } else if is_prefix_request(request) {
        RequestForm::Prefix
    } else {
        RequestForm::Module
    }
}

/// One configured request with its options.
#[derive(Debug, Clone, PartialEq, Eq)]
pub struct Consume {
    pub request: String,
    pub options: ConsumeOptions,
}

impl View for Consume {
    type V = (Seq<char>, ConsumeModel);

    open spec fn view(&self) -> (Seq<char>, ConsumeModel) {
        (self.request@, self.options@)
    }
}

/// The content of a list of configured requests.
pub open spec fn consumes_view(consumes: Vec<Consume>) -> Seq<(Seq<char>, ConsumeModel)> {
    Seq::new(consumes@.len(), |i: int| consumes@[i]@)
}

/// The content of a list of optional texts; a place beyond the list counts
/// as holding none.
pub open spec fn text_at(list: Vec<Option<String>>, i: int) -> Option<Seq<char>> {
    if 0 <= i < list@.len() {
        opt_text(list@[i])
    } else {
        None
    }
}

/// The configured requests, sorted by the way they are matched.
pub struct MatchedConsumes {
    /// By the resource that a module resolved to.
    pub resolved: FxHashMap<String, ConsumeOptions>,
    /// By the request as it is written.
    pub unresolved: FxHashMap<String, ConsumeOptions>,
    /// By the beginning of the request.
    pub prefixed: FxHashMap<String, ConsumeOptions>,
}

/// The mathematical content of a [`MatchedConsumes`].
pub ghost struct MatchedModel {
    pub resolved: Map<Seq<char>, ConsumeModel>,
    pub unresolved: Map<Seq<char>, ConsumeModel>,
    pub prefixed: Map<Seq<char>, ConsumeModel>,
}

impl View for MatchedConsumes {
    type V = MatchedModel;

    open spec fn view(&self) -> MatchedModel {
        MatchedModel {
            resolved: consume_map_entries(self.resolved),
            unresolved: consume_map_entries(self.unresolved),
            prefixed: consume_map_entries(self.prefixed),
        }
    }
}

/// Configured requests sorted by the way they are matched, and the
/// requests among them that could not be sorted in.
pub ghost struct Sorted {
    pub matched: MatchedModel,
    /// The relative requests that resolved to nothing, in their order.
    pub failed: Seq<Seq<char>>,
}

impl Sorted {
    /// Nothing sorted in yet.
    pub open spec fn empty() -> Sorted {
        Sorted {
            matched: MatchedModel {
                resolved: Map::empty(),
                unresolved: Map::empty(),
                prefixed: Map::empty(),
            },
            failed: Seq::empty(),
        }
    }

    /// With one more configured request sorted in. A relative request
    /// stands under what it resolved to, `found`; one that resolved to
    /// nothing is noted as failed. A later request takes the place of an
    /// earlier one under the same key.
    pub open spec fn with(
        self,
        request: Seq<char>,
        options: ConsumeModel,
        found: Option<Seq<char>>,
    ) -> Sorted {
        let m = self.matched;
        match form_of(request) {
            RequestForm::Relative => match found {
                Some(path) => Sorted {
                    matched: MatchedModel { resolved: m.resolved.insert(path, options), ..m },
                    ..self
                },
                None => Sorted { failed: self.failed.push(request), ..self },
            },
            RequestForm::Absolute => Sorted {
                matched: MatchedModel { resolved: m.resolved.insert(request, options), ..m },
                ..self
            },
            RequestForm::Prefix => Sorted {
                matched: MatchedModel { prefixed: m.prefixed.insert(request, options), ..m },
                ..self
            },
            RequestForm::Module => Sorted {
                matched: MatchedModel { unresolved: m.unresolved.insert(request, options), ..m },
                ..self
            },
        }
    }
}

/// The first `upto` configured requests, sorted in one after the other.
pub open spec fn sorted_upto(
    consumes: Seq<(Seq<char>, ConsumeModel)>,
    resolutions: Vec<Option<String>>,
    upto: int,
) -> Sorted
    decreases upto,
{
    if upto <= 0 {
        Sorted::empty()
    } else {
        sorted_upto(consumes, resolutions, upto - 1).with(
            consumes[upto - 1].0,
            consumes[upto - 1].1,
            text_at(resolutions, upto - 1),
        )
    }
}

/// All configured requests, sorted in one after the other.
pub open spec fn sorted(consumes: Vec<Consume>, resolutions: Vec<Option<String>>) -> Sorted {
    sorted_upto(consumes_view(consumes), resolutions, consumes@.len() as int)
}

/// The texts of a list of strings.
pub open spec fn texts_of(list: Vec<String>) -> Seq<Seq<char>> {
    Seq::new(list@.len(), |i: int| list@[i]@)
}

/// The text of the note about a request that did not resolve.
pub open spec fn unresolved_note(request: Seq<char>) -> Seq<char> {
    "Can't resolve shared module "@ + request
}

/// Sorts the configured requests by the way they are matched.
/// `resolutions` holds, at the place of each relative request, what the
/// request resolved to. Returned with the tables are the notes about the
/// relative requests that resolved to nothing.
pub fn resolve_matched_configs(
    consumes: &Vec<Consume>,
    resolutions: &Vec<Option<String>>,
) -> (r: (MatchedConsumes, Vec<String>))
    ensures
        r.0@ == sorted(*consumes, *resolutions).matched,
        texts_of(r.1) == sorted(*consumes, *resolutions).failed.map_values(
            |request: Seq<char>| unresolved_note(request),
        ),
{
    let mut matched = MatchedConsumes {
        resolved: map_new(),
        unresolved: map_new(),
        prefixed: map_new(),
    };
    let mut notes: Vec<String> = Vec::new();
    let ghost all = consumes_view(*consumes);
    let ghost note = |request: Seq<char>| unresolved_note(request);
    proof {
        assert(matched@.resolved =~= Map::<Seq<char>, ConsumeModel>::empty());
        assert(matched@.unresolved =~= Map::<Seq<char>, ConsumeModel>::empty());
        assert(matched@.prefixed =~= Map::<Seq<char>, ConsumeModel>::empty());
        assert(texts_of(notes) =~= Seq::<Seq<char>>::empty().map_values(note));
    }
    let n: usize = consumes.len();
    let mut i: usize = 0;
    while i < n
        invariant
            i <= n,
            n == consumes@.len(),
            all == consumes_view(*consumes),
            note == |request: Seq<char>| unresolved_note(request),
            matched@ == sorted_upto(all, *resolutions, i as int).matched,
            texts_of(notes) == sorted_upto(all, *resolutions, i as int).failed.map_values(note),
        decreases n - i,
    {
        let request = consumes[i].request.as_str();
        let options = consumes[i].options.copy();
        let ghost before = sorted_upto(all, *resolutions, i as int);
        let ghost old_notes = texts_of(notes);
        assert(all[i as int] == (request@, options@));
        match request_form(request) {
            RequestForm::Relative => {
                let found = if i < resolutions.len() {
                    copy_opt(&resolutions[i])
                } else {
                    None
                };
                match found {
                    Some(path) => {
                        map_insert(&mut matched.resolved, path, options);
                    },
                    None => {
                        notes.push(String::from_str("Can't resolve shared module ").concat(request));
                        proof {
                            assert(texts_of(notes) =~= old_notes.push(unresolved_note(request@)));
                            assert(before.failed.push(request@).map_values(note)
                                =~= before.failed.map_values(note).push(note(request@)));
                        }
                    },
                }
            },
            RequestForm::Absolute => {
                map_insert(&mut matched.resolved, String::from_str(request), options);
            },
            RequestForm::Prefix => {
                map_insert(&mut matched.prefixed, String::from_str(request), options);
            },
            RequestForm::Module => {
                map_insert(&mut matched.unresolved, String::from_str(request), options);
            },
        }
        proof {
            assert(texts_of(notes) =~= sorted_upto(all, *resolutions, i + 1).failed.map_values(
                note,
            ));
        }
        i = i + 1;
    }
    (matched, notes)
}

/// What the plugin tells apart among the kinds of dependency.
#[derive(Debug, Clone, Copy, PartialEq, Eq, Hash, Structural)]
pub enum DependencyKind {
    /// The request that a consumed module falls back on.
    ConsumeSharedFallback,
    /// The request behind a module that is provided for sharing.
    ProvideModuleForShared,
    /// Any other dependency.
    Other,
}

impl DependencyKind {
    /// Whether the plugin leaves dependencies of this kind alone: they are
    /// the requests that sharing itself makes.
    pub open spec fn passed_over(self) -> bool {
        self == DependencyKind::ConsumeSharedFallback || self
            == DependencyKind::ProvideModuleForShared
    }

    pub fn is_passed_over(&self) -> (b: bool)
        ensures
            b == self.passed_over(),
    {
        matches!(
            self,
            DependencyKind::ConsumeSharedFallback | DependencyKind::ProvideModuleForShared
        )
    }
}

/// Whether the options `found` are what `prefix` yields for `request`.
pub open spec fn yields(
    prefixed: Map<Seq<char>, ConsumeModel>,
    prefix: Seq<char>,
    request: Seq<char>,
    found: ConsumeModel,
) -> bool {
    &&& prefixed.contains_key(prefix)
    &&& prefix.is_prefix_of(request)
    &&& found == prefixed[prefix].below(request.subrange(prefix.len() as int, request.len() as int))
}

/// The options of `options` for a request below a prefix, where `rest` is
/// what the request holds after the prefix.
fn options_below(options: &ConsumeOptions, rest: &str) -> (o: ConsumeOptions)
    ensures
        o@ == options@.below(rest@),
{
    ConsumeOptions {
        import: match &options.import {
            Some(i) => Some(i.clone().concat(rest)),
            None => None,
        },
        import_resolved: copy_opt(&options.import_resolved),
        share_key: options.share_key.clone().concat(rest),
        share_scope: options.share_scope.clone(),
        required_version: copy_opt_version(&options.required_version),
        package_name: copy_opt(&options.package_name),
        strict_version: options.strict_version,
        singleton: options.singleton,
        eager: options.eager,
    }
}

/// The options under which the dependency `request` of kind `kind` is
/// consumed, if the plugin takes it over. A request that is configured as
/// it stands comes first. Else a configured prefix that the request begins
/// with decides, with the rest of the request added to share key and
/// fallback; where several prefixes fit, which of them decides is not
/// stated.
pub fn factorize(matched: &MatchedConsumes, kind: DependencyKind, request: &str) -> (found: Option<
    ConsumeOptions,
>)
    ensures
        kind.passed_over() ==> found is None,
        !kind.passed_over() && matched@.unresolved.contains_key(request@) ==> found is Some
            && found->Some_0@ == matched@.unresolved[request@],
        !kind.passed_over() && !matched@.unresolved.contains_key(request@) ==> match found {
            Some(o) => exists|prefix: Seq<char>| yields(matched@.prefixed, prefix, request@, o@),
            None => forall|prefix: Seq<char>|
                matched@.prefixed.contains_key(prefix) ==> !prefix.is_prefix_of(request@),
        },
{
    if kind.is_passed_over() {
        return None;
    }
    if let Some(options) = map_get(&matched.unresolved, request) {
        return Some(options.copy());
    }
    let prefixes = map_keys(&matched.prefixed);
    let n: usize = prefixes.len();
    let mut i: usize = 0;
    while i < n
        invariant
            i <= n,
            n == prefixes@.len(),
            !kind.passed_over(),
            !matched@.unresolved.contains_key(request@),
            forall|k: int|
                0 <= k < prefixes@.len() ==> matched@.prefixed.contains_key(
                    #[trigger] prefixes@[k]@,
                ),
            forall|k: int| 0 <= k < i ==> !(#[trigger] prefixes@[k])@.is_prefix_of(request@),
        decreases n - i,
    {
        let prefix = prefixes[i].as_str();
        if starts_with(request, prefix) {
            if let Some(options) = map_get(&matched.prefixed, prefix) {
                let rest = tail_from(request, prefix.unicode_len());
                let found = options_below(options, rest.as_str());
                assert(yields(matched@.prefixed, prefix@, request@, found@));
                return Some(found);
            }
        }
        i = i + 1;
    }
    proof {
        assert forall|prefix: Seq<char>| matched@.prefixed.contains_key(prefix) implies !prefix.is_prefix_of(
            request@,
        ) by {
            let k = choose|k: int| 0 <= k < prefixes@.len() && #[trigger] prefixes@[k]@ == prefix;
            assert(!prefixes@[k]@.is_prefix_of(request@));
        }
    }
    None
}

/// The options under which the module that resolved to `resource`, for a
/// dependency of kind `kind`, is consumed, if the plugin takes it over.
pub fn normal_module_factory_create_module(
    matched: &MatchedConsumes,
    kind: DependencyKind,
    resource: &str,
) -> (found: Option<ConsumeOptions>)
    ensures
        match found {
            Some(o) => !kind.passed_over() && matched@.resolved.contains_key(resource@) && o@
                == matched@.resolved[resource@],
            None => kind.passed_over() || !matched@.resolved.contains_key(resource@),
        },
{
    if kind.is_passed_over() {
        return None;
    }
    match map_get(&matched.resolved, resource) {
        Some(options) => Some(options.copy()),
        None => None,
    }
}

/// From which directory the fallback of a consumed module is resolved.
#[derive(Debug, Clone, Copy, PartialEq, Eq, Hash, Structural)]
pub enum ResolveBase {
    /// The directory of the build: for a fallback that is written as a path.
    Compiler,
    /// The directory of the module that asks.
    Issuer,
}

impl ConsumeModel {
    /// Whether the fallback is written as a path, relative or absolute.
    pub open spec fn direct_fallback(self) -> bool {
        match self.import {
            Some(i) => relative_request(i) || absolute_request(i),
            None => false,
        }
    }

    /// The name of the package whose description decides the version of
    /// `request`: the configured name; else none for an absolute request;
    /// else the name that the request begins with.
    pub open spec fn package_for(self, request: Seq<char>) -> Option<Seq<char>> {
        match self.package_name {
            Some(name) => Some(name),
            None => if absolute_request(request) {
                None
            } else {
                package_name(request)
            },
        }
    }

    /// The version that is asked for: the configured one; else what the
    /// description file says of the package, where there is a package and
    /// a file.
    pub open spec fn version_for(
        self,
        request: Seq<char>,
        description: Option<serde_json::Value>,
    ) -> Option<VersionModel> {
        match self.required_version {
            Some(v) => Some(v),
            None => match (self.package_for(request), description) {
                (Some(name), Some(file)) => required_version(file, name),
                _ => None,
            },
        }
    }

    /// The options of the module that is made for `request`: the fallback
    /// stays only where it resolved, and the version is settled.
    pub open spec fn settled(
        self,
        request: Seq<char>,
        import_resolved: Option<Seq<char>>,
        description: Option<serde_json::Value>,
    ) -> ConsumeModel {
        ConsumeModel {
            import: if import_resolved is Some {
                self.import
            } else {
                None
            },
            import_resolved,
            required_version: self.version_for(request, description),
            ..self
        }
    }
}

/// From which directory the fallback of `config` is to be resolved.
pub fn resolve_base(config: &ConsumeOptions) -> (base: ResolveBase)
    ensures
        base == if config@.direct_fallback() {
            ResolveBase::Compiler
        } else {
            ResolveBase::Issuer
        },
{
    match &config.import {
        Some(i) => {
            if is_relative_request(i.as_str()) || is_absolute_request(i.as_str()) {
                ResolveBase::Compiler
            } else {
                ResolveBase::Issuer
            }
        },
        None => ResolveBase::Issuer,
    }
}

/// The name of the package whose description file decides the version of
/// `request`, if a description file is to be read at all: none where the
/// version is configured.
pub fn package_to_describe(config: &ConsumeOptions, request: &str) -> (name: Option<String>)
    ensures
        match (config@.required_version, config@.package_for(request@)) {
            (None, Some(text)) => name is Some && name->Some_0@ == text,
            _ => name is None,
        },
{
    if config.required_version.is_some() {
        return None;
    }
    match &config.package_name {
        Some(n) => Some(n.clone()),
        None => {
            if is_absolute_request(request) {
                None
            } else {
                package_name_of(request)
            }
        },
    }
}

/// The content of an optional reference to a description file.
pub open spec fn opt_description(d: Option<&serde_json::Value>) -> Option<serde_json::Value> {
    match d {
        Some(d) => Some(*d),
        None => None,
    }
}

/// The options of the module that consumes `request` under `config`.
/// `import_resolved` is what the fallback resolved to, and `description`
/// the description file that was found for the module that asks.
pub fn create_consume_shared_module(
    config: &ConsumeOptions,
    request: &str,
    import_resolved: Option<String>,
    description: Option<&serde_json::Value>,
) -> (options: ConsumeOptions)
    ensures
        options@ == config@.settled(
            request@,
            opt_text(import_resolved),
            opt_description(description),
        ),
{
    let required_version = match &config.required_version {
        Some(v) => Some(v.copy()),
        None => {
            match (package_to_describe(config, request), description) {
                (Some(name), Some(file)) => get_required_version_from_description_file(
                    file,
                    name.as_str(),
                ),
                _ => None,
            }
        },
    };
    ConsumeOptions {
        import: if import_resolved.is_some() {
            copy_opt(&config.import)
        } else {
            None
        },
        import_resolved,
        share_key: config.share_key.clone(),
        share_scope: config.share_scope.clone(),
        required_version,
        package_name: copy_opt(&config.package_name),
        strict_version: config.strict_version,
        singleton: config.singleton,
        eager: config.eager,
    }
}

/// A capability of the runtime that generated code may rely on.
#[derive(Debug, Clone, Copy, PartialEq, Eq, Hash, Structural)]
pub enum RuntimeGlobal {
    Module,
    ModuleCache,
    ModuleFactoriesAddOnly,
    ShareScopeMap,
    InitializeSharing,
    HasOwnProperty,
}

/// What the runtime of a chunk tree must offer where modules are consumed.
pub open spec fn consume_requirements() -> Seq<RuntimeGlobal> {
    seq![
        RuntimeGlobal::Module,
        RuntimeGlobal::ModuleCache,
        RuntimeGlobal::ModuleFactoriesAddOnly,
        RuntimeGlobal::ShareScopeMap,
        RuntimeGlobal::InitializeSharing,
        RuntimeGlobal::HasOwnProperty,
    ]
}

/// The plugin for consuming shared modules: the configured requests, and
/// what it learns when a build begins.
pub struct ConsumeSharedPlugin {
    consumes: Vec<Consume>,
    compiler_context: Option<String>,
    matched_consumes: Option<MatchedConsumes>,
}

impl ConsumeSharedPlugin {
    /// The configured requests, in their order.
    pub closed spec fn consumes(&self) -> Seq<(Seq<char>, ConsumeModel)> {
        consumes_view(self.consumes)
    }

    /// The directory of the build, once it is known.
    pub closed spec fn context(&self) -> Option<Seq<char>> {
        opt_text(self.compiler_context)
    }

    /// The sorted requests, once they are sorted.
    pub closed spec fn matched(&self) -> Option<MatchedModel> {
        match self.matched_consumes {
            Some(m) => Some(m@),
            None => None,
        }
    }

    pub fn new(consumes: Vec<(String, ConsumeOptions)>) -> (plugin: ConsumeSharedPlugin)
        ensures
            plugin.consumes() == Seq::new(
                consumes@.len(),
                |i: int| (consumes@[i].0@, consumes@[i].1@),
            ),
            plugin.context() is None,
            plugin.matched() is None,
    {
        let mut list: Vec<Consume> = Vec::new();
        let n: usize = consumes.len();
        let mut i: usize = 0;
        while i < n
            invariant
                i <= n,
                n == consumes@.len(),
                list@.len() == i,
                forall|k: int|
                    0 <= k < i ==> (#[trigger] list@[k])@ == (consumes@[k].0@, consumes@[k].1@),
            decreases n - i,
        {
            list.push(Consume { request: consumes[i].0.clone(), options: consumes[i].1.copy() });
            i = i + 1;
        }
        let plugin = ConsumeSharedPlugin {
            consumes: list,
            compiler_context: None,
            matched_consumes: None,
        };
        assert(plugin.consumes() =~= Seq::new(
            consumes@.len(),
            |i: int| (consumes@[i].0@, consumes@[i].1@),
        ));
        plugin
    }

    pub fn name(&self) -> (name: &'static str)
        ensures
            name@ == "rspack.ConsumeSharedPlugin"@,
    {
        "rspack.ConsumeSharedPlugin"
    }

    /// Notes the directory of the build.
    pub fn init_context(&mut self, context: String)
        ensures
            final(self).context() == Some(context@),
            final(self).consumes() == old(self).consumes(),
            final(self).matched() == old(self).matched(),
    {
        self.compiler_context = Some(context);
    }

    /// Whether the directory of the build is noted.
    pub fn has_context(&self) -> (b: bool)
        ensures
            b == self.context() is Some,
    {
        self.compiler_context.is_some()
    }

    /// Whether the configured requests are sorted.
    pub fn has_matched_consumes(&self) -> (b: bool)
        ensures
            b == self.matched() is Some,
    {
        self.matched_consumes.is_some()
    }

    /// The directory of the build. It must have been noted before.
    pub fn get_context(&self) -> (context: &String)
        requires
            self.context() is Some,
        ensures
            Some(context@) == self.context(),
    {
        self.compiler_context.as_ref().unwrap()
    }

    /// The configured requests that are relative, each with its place
    /// among the configured requests: those that the resolver must be asked
    /// about before the requests can be sorted.
    pub fn requests_to_resolve(&self) -> (list: Vec<(usize, String)>)
        ensures
            forall|k: int|
                0 <= k < list@.len() ==> (#[trigger] list@[k]).0 < self.consumes().len()
                    && list@[k].1@ == self.consumes()[list@[k].0 as int].0 && relative_request(
                    list@[k].1@,
                ),
            forall|i: int|
                0 <= i < self.consumes().len() && relative_request(
                    (#[trigger] self.consumes()[i]).0,
                ) ==> exists|k: int| 0 <= k < list@.len() && (#[trigger] list@[k]).0 == i,
            forall|j: int, k: int|
                0 <= j < k < list@.len() ==> (#[trigger] list@[j]).0 < (#[trigger] list@[k]).0,
    {
        let mut list: Vec<(usize, String)> = Vec::new();
        let n: usize = self.consumes.len();
        let mut i: usize = 0;
        while i < n
            invariant
                i <= n,
                n == self.consumes@.len(),
                forall|k: int|
                    0 <= k < list@.len() ==> (#[trigger] list@[k]).0 < i && list@[k].1@
                        == self.consumes()[list@[k].0 as int].0 && relative_request(list@[k].1@),
                forall|m: int|
                    0 <= m < i && relative_request((#[trigger] self.consumes()[m]).0)
                        ==> exists|k: int| 0 <= k < list@.len() && (#[trigger] list@[k]).0 == m,
                forall|j: int, k: int|
                    0 <= j < k < list@.len() ==> (#[trigger] list@[j]).0 < (#[trigger] list@[k]).0,
            decreases n - i,
        {
            if is_relative_request(self.consumes[i].request.as_str()) {
                let ghost before = list@;
                list.push((i, self.consumes[i].request.clone()));
                proof {
                    assert forall|m: int|
                        0 <= m < i + 1 && relative_request(
                            (#[trigger] self.consumes()[m]).0,
                        ) implies exists|k: int|
                        0 <= k < list@.len() && (#[trigger] list@[k]).0 == m by {
                        if m < i {
                            let k = choose|k: int|
                                0 <= k < before.len() && (#[trigger] before[k]).0 == m;
                            assert(list@[k].0 == m);
                        } else {
                            assert(list@[list@.len() - 1].0 == m);
                        }
                    }
                }
            }
            i = i + 1;
        }
        list
    }

    /// Sorts the configured requests; `resolutions` holds, at the place of
    /// each relative request, what it resolved to. Returns the notes about
    /// the requests that resolved to nothing.
    pub fn init_matched_consumes(&mut self, resolutions: &Vec<Option<String>>) -> (notes: Vec<
        String,
    >)
        ensures
            final(self).consumes() == old(self).consumes(),
            final(self).context() == old(self).context(),
            final(self).matched() == Some(
                sorted_upto(
                    old(self).consumes(),
                    *resolutions,
                    old(self).consumes().len() as int,
                ).matched,
            ),
            texts_of(notes) == sorted_upto(
                old(self).consumes(),
                *resolutions,
                old(self).consumes().len() as int,
            ).failed.map_values(|request: Seq<char>| unresolved_note(request)),
    {
        let (matched, notes) = resolve_matched_configs(&self.consumes, resolutions);
        self.matched_consumes = Some(matched);
        notes
    }

    /// The sorted requests. They must have been sorted before.
    pub fn get_matched_consumes(&self) -> (matched: &MatchedConsumes)
        requires
            self.matched() is Some,
        ensures
            Some(matched@) == self.matched(),
    {
        self.matched_consumes.as_ref().unwrap()
    }

    /// What the plugin does when a build begins: it notes the build's
    /// directory and sorts the configured requests.
    pub fn this_compilation(&mut self, context: String, resolutions: &Vec<Option<String>>) -> (notes:
        Vec<String>)
        ensures
            final(self).consumes() == old(self).consumes(),
            final(self).context() == Some(context@),
            final(self).matched() == Some(
                sorted_upto(
                    old(self).consumes(),
                    *resolutions,
                    old(self).consumes().len() as int,
                ).matched,
            ),
            texts_of(notes) == sorted_upto(
                old(self).consumes(),
                *resolutions,
                old(self).consumes().len() as int,
            ).failed.map_values(|request: Seq<char>| unresolved_note(request)),
    {
        self.init_context(context);
        self.init_matched_consumes(resolutions)
    }

    /// What the runtime of a chunk tree must offer, in the order in which
    /// the plugin asks for it.
    pub fn additional_tree_runtime_requirements(&self) -> (list: Vec<RuntimeGlobal>)
        ensures
            list@ == consume_requirements(),
    {
        let mut list: Vec<RuntimeGlobal> = Vec::new();
        list.push(RuntimeGlobal::Module);
        list.push(RuntimeGlobal::ModuleCache);
        list.push(RuntimeGlobal::ModuleFactoriesAddOnly);
        list.push(RuntimeGlobal::ShareScopeMap);
        list.push(RuntimeGlobal::InitializeSharing);
        list.push(RuntimeGlobal::HasOwnProperty);
        assert(list@ =~= consume_requirements());
        list
    }
}

} // verus!
