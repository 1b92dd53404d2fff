//! The plugin for WebAssembly modules that load asynchronously: which files
//! a chunk gets from them.

use crate::module_type::ModuleType;
use crate::module_type::SourceType;
use crate::text::str_eq;
use vstd::prelude::*;

verus! {

/// The plugin that switches the loading of WebAssembly on.
#[derive(Debug, Clone, Copy, PartialEq, Eq, Structural)]
pub struct EnableWasmLoadingPlugin;

/// A module of a chunk as the plugin sees it.
#[derive(Debug, Clone, PartialEq, Eq)]
pub struct ChunkModule {
    pub identifier: String,
    pub module_type: ModuleType,
    /// The kinds of source that were generated for the module; none where
    /// nothing was generated for it.
    pub generated: Option<Vec<SourceType>>,
}

/// A file that a chunk gets from a module.
#[derive(Debug, Clone, PartialEq, Eq)]
pub struct RenderManifestEntry {
    /// The place of the module among the modules of the chunk.
    pub module: usize,
    /// The name of the file, without its extension.
    pub output_path: String,
}

/// Nothing was generated for a module.
#[derive(Debug, Clone, PartialEq, Eq)]
pub struct MissingCodeGeneration {
    /// The place of the module among the modules of the chunk.
    pub module: usize,
}

/// The plugin for WebAssembly modules that load asynchronously. It knows
/// the file name of each such module.
#[derive(Debug)]
pub struct AsyncWasmPlugin {
    pub module_id_to_filename_without_ext: Vec<(String, String)>,
}

/// Whether a module loads asynchronously as WebAssembly.
pub open spec fn is_async_wasm(m: ChunkModule) -> bool {
    m.module_type == ModuleType::WasmAsync
}

/// Whether a WebAssembly source was generated for a module.
pub open spec fn has_wasm_source(m: ChunkModule) -> bool {
    m.generated matches Some(kinds) && kinds@.contains(SourceType::Wasm)
}

/// Whether `names` holds a file name for the module `id`.
pub open spec fn names_module(names: Seq<(String, String)>, id: Seq<char>) -> bool {
    exists|k: int| 0 <= k < names.len() && (#[trigger] names[k]).0@ == id
}

/// The place of the first entry of `names` for the module `id`, among the
/// first `upto` entries; `upto` where there is none.
pub open spec fn name_index(names: Seq<(String, String)>, id: Seq<char>, upto: int) -> int
    decreases upto,
{
    if upto <= 0 {
        0
    } else if name_index(names, id, upto - 1) < upto - 1 {
        name_index(names, id, upto - 1)
    } else if names[upto - 1].0@ == id {
        upto - 1
    } else {
        upto
    }
}

/// The files of the first `upto` modules: one for each module that loads
/// asynchronously as WebAssembly and has a WebAssembly source, in the order
/// of the modules.
pub open spec fn entries_upto(modules: Seq<ChunkModule>, upto: int) -> Seq<int>
    decreases upto,
{
    if upto <= 0 {
        Seq::empty()
    } else if is_async_wasm(modules[upto - 1]) && has_wasm_source(modules[upto - 1]) {
        entries_upto(modules, upto - 1).push(upto - 1)
    } else {
        entries_upto(modules, upto - 1)
    }
}

/// The place of the first asynchronous WebAssembly module, among the first
/// `upto`, for which nothing was generated; `upto` where there is none.
pub open spec fn first_missing(modules: Seq<ChunkModule>, upto: int) -> int
    decreases upto,
{
    if upto <= 0 {
        0
    } else if first_missing(modules, upto - 1) < upto - 1 {
        first_missing(modules, upto - 1)
    } else if is_async_wasm(modules[upto - 1]) && modules[upto - 1].generated is None {
        upto - 1
    } else {
        upto
    }
}

fn has_kind(kinds: &Vec<SourceType>, kind: SourceType) -> (b: bool)
    ensures
        b == kinds@.contains(kind),
{
    let n: usize = kinds.len();
    let mut i: usize = 0;
    while i < n
        invariant
            i <= n,
            n == kinds@.len(),
            forall|k: int| 0 <= k < i ==> kinds@[k] != kind,
        decreases n - i,
    {
        if kinds[i] == kind {
            return true;
        }
        i = i + 1;
    }
    false
}

impl AsyncWasmPlugin {
    pub fn new() -> (plugin: AsyncWasmPlugin)
        ensures
            plugin.module_id_to_filename_without_ext@.len() == 0,
    {
        AsyncWasmPlugin { module_id_to_filename_without_ext: Vec::new() }
    }

    pub fn name(&self) -> (name: &'static str)
        ensures
            name@ == "rspack.AsyncWebAssemblyModulesPlugin"@,
    {
        "rspack.AsyncWebAssemblyModulesPlugin"
    }

    /// The file name that is known for the module `id`: that of the first
    /// entry for it.
    pub fn filename_of(&self, id: &str) -> (name: Option<&String>)
        ensures
            match name {
                Some(n) => names_module(self.module_id_to_filename_without_ext@, id@) && *n
                    == self.module_id_to_filename_without_ext@[name_index(
                    self.module_id_to_filename_without_ext@,
                    id@,
                    self.module_id_to_filename_without_ext@.len() as int,
                )].1,
                None => !names_module(self.module_id_to_filename_without_ext@, id@),
            },
    {
        let names = &self.module_id_to_filename_without_ext;
        let n: usize = names.len();
        let mut i: usize = 0;
        while i < n
            invariant
                i <= n,
                n == names@.len(),
                names == &self.module_id_to_filename_without_ext,
                forall|k: int| 0 <= k < i ==> (#[trigger] names@[k]).0@ != id@,
                name_index(names@, id@, i as int) == i,
            decreases n - i,
        {
            if str_eq(names[i].0.as_str(), id) {
                proof {
                    lemma_name_index_stays(names@, id@, i + 1, n as int);
                }
                return Some(&names[i].1);
            }
            i = i + 1;
        }
        None
    }

    /// The files that a chunk gets from its modules. Every asynchronous
    /// WebAssembly module with a WebAssembly source must have a file name.
    /// Fails where nothing was generated for such a module.
    pub fn render_manifest(&self, modules: &Vec<ChunkModule>) -> (r: Result<
        Vec<RenderManifestEntry>,
        MissingCodeGeneration,
    >)
        requires
            forall|i: int|
                0 <= i < modules@.len() && is_async_wasm(#[trigger] modules@[i])
                    && has_wasm_source(modules@[i]) ==> names_module(
                    self.module_id_to_filename_without_ext@,
                    modules@[i].identifier@,
                ),
        ensures
            match r {
                Ok(entries) => first_missing(modules@, modules@.len() as int) == modules@.len()
                    && entries@.len() == entries_upto(modules@, modules@.len() as int).len()
                    && forall|k: int|
                    0 <= k < entries@.len() ==> (#[trigger] entries@[k]).module == entries_upto(
                        modules@,
                        modules@.len() as int,
                    )[k] && entries@[k].output_path
                        == self.module_id_to_filename_without_ext@[name_index(
                        self.module_id_to_filename_without_ext@,
                        modules@[entries@[k].module as int].identifier@,
                        self.module_id_to_filename_without_ext@.len() as int,
                    )].1,
                Err(e) => e.module == first_missing(modules@, modules@.len() as int) && e.module
                    < modules@.len(),
            },
    {
        let mut entries: Vec<RenderManifestEntry> = Vec::new();
        let n: usize = modules.len();
        let mut i: usize = 0;
        while i < n
            invariant
                i <= n,
                n == modules@.len(),
                first_missing(modules@, i as int) == i,
                entries@.len() == entries_upto(modules@, i as int).len(),
                forall|k: int|
                    0 <= k < modules@.len() && is_async_wasm(#[trigger] modules@[k])
                        && has_wasm_source(modules@[k]) ==> names_module(
                        self.module_id_to_filename_without_ext@,
                        modules@[k].identifier@,
                    ),
                forall|k: int|
                    0 <= k < entries@.len() ==> (#[trigger] entries@[k]).module == entries_upto(
                        modules@,
                        i as int,
                    )[k] && entries@[k].module < i && entries@[k].output_path
                        == self.module_id_to_filename_without_ext@[name_index(
                        self.module_id_to_filename_without_ext@,
                        modules@[entries@[k].module as int].identifier@,
                        self.module_id_to_filename_without_ext@.len() as int,
                    )].1,
            decreases n - i,
        {
            if matches!(modules[i].module_type, ModuleType::WasmAsync) {
                match &modules[i].generated {
                    None => {
                        proof {
                            lemma_first_missing_stays(modules@, i + 1, n as int);
                        }
                        return Err(MissingCodeGeneration { module: i });
                    },
                    Some(kinds) => {
                        if has_kind(kinds, SourceType::Wasm) {
                            let name = self.filename_of(modules[i].identifier.as_str());
                            entries.push(
                                RenderManifestEntry {
                                    module: i,
                                    output_path: name.unwrap().clone(),
                                },
                            );
                        }
                    },
                }
            }
            i = i + 1;
        }
        Ok(entries)
    }
}

/// Once a module's name is found among the first entries, later entries
/// change nothing.
proof fn lemma_name_index_stays(names: Seq<(String, String)>, id: Seq<char>, found: int, upto: int)
    requires
        1 <= found <= upto,
        name_index(names, id, found) == found - 1,
    ensures
        name_index(names, id, upto) == found - 1,
    decreases upto - found,
{
    if found < upto {
        lemma_name_index_stays(names, id, found, upto - 1);
    }
}

/// Once a module without generated code is found among the first modules,
/// later modules change nothing.
proof fn lemma_first_missing_stays(modules: Seq<ChunkModule>, found: int, upto: int)
    requires
        1 <= found <= upto,
        first_missing(modules, found) == found - 1,
    ensures
        first_missing(modules, upto) == found - 1,
    decreases upto - found,
{
    if found < upto {
        lemma_first_missing_stays(modules, found, upto - 1);
    }
}

} // verus!
