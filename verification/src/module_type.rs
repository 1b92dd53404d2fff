//! Kinds of module and of generated source that the build distinguishes.

use crate::text::str_eq;
use vstd::prelude::*;

verus! {

/// What a piece of generated code is, as chunks are rendered.
#[derive(Debug, Clone, Copy, PartialEq, Eq, Hash, Structural)]
pub enum SourceType {
    JavaScript,
    Css,
    Wasm,
    Asset,
    Remote,
    ShareInit,
    ConsumeShared,
    Unknown,
}

impl SourceType {
    /// The name under which this source type is reported.
    pub open spec fn name(self) -> Seq<char> {
        match self {
            SourceType::JavaScript => "javascript"@,
            SourceType::Css => "css"@,
            SourceType::Wasm => "wasm"@,
            SourceType::Asset => "asset"@,
            SourceType::Remote => "remote"@,
            SourceType::ShareInit => "share-init"@,
            SourceType::ConsumeShared => "consume-shared"@,
            SourceType::Unknown => "unknown"@,
        }
    }

    pub fn as_str(&self) -> (s: &'static str)
        ensures
            s@ == self.name(),
    {
        match self {
            SourceType::JavaScript => "javascript",
            SourceType::Css => "css",
            SourceType::Wasm => "wasm",
            SourceType::Asset => "asset",
            SourceType::Remote => "remote",
            SourceType::ShareInit => "share-init",
            SourceType::ConsumeShared => "consume-shared",
            SourceType::Unknown => "unknown",
        }
    }
}

impl Default for SourceType {
    fn default() -> (t: SourceType)
        ensures
            t == SourceType::Unknown,
    {
        SourceType::Unknown
    }
}

/// How a module is parsed and generated.
#[derive(Debug, Clone, Copy, PartialEq, Eq, Hash, Structural)]
pub enum ModuleType {
    Json,
    Css,
    CssModule,
    CssAuto,
    Js,
    JsDynamic,
    JsEsm,
    Jsx,
    JsxDynamic,
    JsxEsm,
    Tsx,
    Ts,
    WasmSync,
    WasmAsync,
    AssetInline,
    AssetResource,
    AssetSource,
    Asset,
    Runtime,
    Remote,
    Fallback,
    ProvideShared,
    ConsumeShared,
}

/// A name that stands for no module type.
#[derive(Debug, Clone, PartialEq, Eq)]
pub struct InvalidModuleType {
    /// The name as it was given.
    pub value: String,
}

impl InvalidModuleType {
    /// The text of the error message.
    pub open spec fn message_text(self) -> Seq<char> {
        "invalid module type: "@ + self.value@
    }

    pub fn message(&self) -> (m: String)
        ensures
            m@ == self.message_text(),
    {
        String::from_str("invalid module type: ").concat(self.value.as_str())
    }
}

impl ModuleType {
    pub open spec fn spec_is_css_like(&self) -> bool {
        *self == ModuleType::Css || *self == ModuleType::CssModule || *self == ModuleType::CssAuto
    }

    pub open spec fn spec_is_jsx_like(&self) -> bool {
        *self == ModuleType::Tsx || *self == ModuleType::Jsx || *self == ModuleType::JsxEsm || *self
            == ModuleType::JsxDynamic
    }

    pub open spec fn spec_is_js_like(&self) -> bool {
        *self == ModuleType::Js || *self == ModuleType::JsEsm || *self == ModuleType::JsDynamic || *self
            == ModuleType::Ts || self.spec_is_jsx_like()
    }

    pub open spec fn spec_is_asset_like(&self) -> bool {
        *self == ModuleType::Asset || *self == ModuleType::AssetInline || *self
            == ModuleType::AssetResource
    }

    pub open spec fn spec_is_wasm_like(&self) -> bool {
        *self == ModuleType::WasmSync || *self == ModuleType::WasmAsync
    }

    pub open spec fn spec_is_js_auto(&self) -> bool {
        *self == ModuleType::Js || *self == ModuleType::Jsx || *self == ModuleType::Ts || *self
            == ModuleType::Tsx
    }

    pub open spec fn spec_is_js_esm(&self) -> bool {
        *self == ModuleType::JsEsm || *self == ModuleType::JsxEsm || *self == ModuleType::Ts || *self
            == ModuleType::Tsx
    }

    pub open spec fn spec_is_js_dynamic(&self) -> bool {
        *self == ModuleType::JsDynamic || *self == ModuleType::JsxDynamic || *self == ModuleType::Ts
            || *self == ModuleType::Tsx
    }

    /// Binary modules are the asset-like and the WebAssembly ones.
    pub open spec fn spec_is_binary(&self) -> bool {
        self.spec_is_asset_like() || self.spec_is_wasm_like()
    }

    /// The canonical name of the module type.
    pub open spec fn name(self) -> Seq<char> {
        match self {
            ModuleType::Js => "javascript/auto"@,
            ModuleType::JsEsm => "javascript/esm"@,
            ModuleType::JsDynamic => "javascript/dynamic"@,
            ModuleType::Jsx => "javascriptx"@,
            ModuleType::JsxEsm => "javascriptx/esm"@,
            ModuleType::JsxDynamic => "javascriptx/dynamic"@,
            ModuleType::Ts => "typescript"@,
            ModuleType::Tsx => "typescriptx"@,
            ModuleType::Css => "css"@,
            ModuleType::CssModule => "css/module"@,
            ModuleType::CssAuto => "css/auto"@,
            ModuleType::Json => "json"@,
            ModuleType::WasmSync => "webassembly/sync"@,
            ModuleType::WasmAsync => "webassembly/async"@,
            ModuleType::Asset => "asset"@,
            ModuleType::AssetSource => "asset/source"@,
            ModuleType::AssetResource => "asset/resource"@,
            ModuleType::AssetInline => "asset/inline"@,
            ModuleType::Runtime => "runtime"@,
            ModuleType::Remote => "remote-module"@,
            ModuleType::Fallback => "fallback-module"@,
            ModuleType::ProvideShared => "provide-module"@,
            ModuleType::ConsumeShared => "consume-shared-module"@,
        }
    }

    /// The module type that a configured name stands for, if any. Several
    /// spellings are accepted for the script types.
    pub open spec fn from_name(s: Seq<char>) -> Option<ModuleType> {
        if s == "mjs"@ {
            Some(ModuleType::JsEsm)
        } else if s == "cjs"@ {
            Some(ModuleType::JsDynamic)
        } else if s == "js"@ || s == "javascript"@ || s == "js/auto"@ || s == "javascript/auto"@ {
            Some(ModuleType::Js)
        } else if s == "js/dynamic"@ || s == "javascript/dynamic"@ {
            Some(ModuleType::JsDynamic)
        } else if s == "js/esm"@ || s == "javascript/esm"@ {
            Some(ModuleType::JsEsm)
        } else if s == "jsx"@ || s == "javascriptx"@ || s == "jsx/auto"@ || s
            == "javascriptx/auto"@ {
            Some(ModuleType::Jsx)
        } else if s == "jsx/dynamic"@ || s == "javascriptx/dynamic"@ {
            Some(ModuleType::JsxDynamic)
        } else if s == "jsx/esm"@ || s == "javascriptx/esm"@ {
            Some(ModuleType::JsxEsm)
        } else if s == "ts"@ || s == "typescript"@ {
            Some(ModuleType::Ts)
        } else if s == "tsx"@ || s == "typescriptx"@ {
            Some(ModuleType::Tsx)
        } else if s == "css"@ {
            Some(ModuleType::Css)
        } else if s == "css/module"@ {
            Some(ModuleType::CssModule)
        } else if s == "css/auto"@ {
            Some(ModuleType::CssAuto)
        } else if s == "json"@ {
            Some(ModuleType::Json)
        } else if s == "webassembly/sync"@ {
            Some(ModuleType::WasmSync)
        } else if s == "webassembly/async"@ {
            Some(ModuleType::WasmAsync)
        } else if s == "asset"@ {
            Some(ModuleType::Asset)
        } else if s == "asset/resource"@ {
            Some(ModuleType::AssetResource)
        } else if s == "asset/source"@ {
            Some(ModuleType::AssetSource)
        } else if s == "asset/inline"@ {
            Some(ModuleType::AssetInline)
        } else {
            None
        }
    }

    #[verifier::when_used_as_spec(spec_is_css_like)]
    pub fn is_css_like(&self) -> (b: bool)
        ensures
            b == self.spec_is_css_like(),
    {
        matches!(self, ModuleType::Css | ModuleType::CssModule | ModuleType::CssAuto)
    }

    #[verifier::when_used_as_spec(spec_is_js_like)]
    pub fn is_js_like(&self) -> (b: bool)
        ensures
            b == self.spec_is_js_like(),
    {
        matches!(self, ModuleType::Js | ModuleType::JsEsm | ModuleType::JsDynamic | ModuleType::Ts)
            || self.is_jsx_like()
    }

    #[verifier::when_used_as_spec(spec_is_asset_like)]
    pub fn is_asset_like(&self) -> (b: bool)
        ensures
            b == self.spec_is_asset_like(),
    {
        matches!(self, ModuleType::Asset | ModuleType::AssetInline | ModuleType::AssetResource)
    }

    #[verifier::when_used_as_spec(spec_is_jsx_like)]
    pub fn is_jsx_like(&self) -> (b: bool)
        ensures
            b == self.spec_is_jsx_like(),
    {
        matches!(
            self,
            ModuleType::Tsx | ModuleType::Jsx | ModuleType::JsxEsm | ModuleType::JsxDynamic
        )
    }

    #[verifier::when_used_as_spec(spec_is_wasm_like)]
    pub fn is_wasm_like(&self) -> (b: bool)
        ensures
            b == self.spec_is_wasm_like(),
    {
        matches!(self, ModuleType::WasmSync | ModuleType::WasmAsync)
    }

    #[verifier::when_used_as_spec(spec_is_js_auto)]
    pub fn is_js_auto(&self) -> (b: bool)
        ensures
            b == self.spec_is_js_auto(),
    {
        matches!(self, ModuleType::Js | ModuleType::Jsx | ModuleType::Ts | ModuleType::Tsx)
    }

    #[verifier::when_used_as_spec(spec_is_js_esm)]
    pub fn is_js_esm(&self) -> (b: bool)
        ensures
            b == self.spec_is_js_esm(),
    {
        matches!(self, ModuleType::JsEsm | ModuleType::JsxEsm | ModuleType::Ts | ModuleType::Tsx)
    }

    #[verifier::when_used_as_spec(spec_is_js_dynamic)]
    pub fn is_js_dynamic(&self) -> (b: bool)
        ensures
            b == self.spec_is_js_dynamic(),
    {
        matches!(
            self,
            ModuleType::JsDynamic | ModuleType::JsxDynamic | ModuleType::Ts | ModuleType::Tsx
        )
    }

    #[verifier::when_used_as_spec(spec_is_binary)]
    pub fn is_binary(&self) -> (b: bool)
        ensures
            b == self.spec_is_binary(),
    {
        self.is_asset_like() || self.is_wasm_like()
    }

    pub fn as_str(&self) -> (s: &'static str)
        ensures
            s@ == self.name(),
    {
        match self {
            ModuleType::Js => "javascript/auto",
            ModuleType::JsEsm => "javascript/esm",
            ModuleType::JsDynamic => "javascript/dynamic",
            ModuleType::Jsx => "javascriptx",
            ModuleType::JsxEsm => "javascriptx/esm",
            ModuleType::JsxDynamic => "javascriptx/dynamic",
            ModuleType::Ts => "typescript",
            ModuleType::Tsx => "typescriptx",
            ModuleType::Css => "css",
            ModuleType::CssModule => "css/module",
            ModuleType::CssAuto => "css/auto",
            ModuleType::Json => "json",
            ModuleType::WasmSync => "webassembly/sync",
            ModuleType::WasmAsync => "webassembly/async",
            ModuleType::Asset => "asset",
            ModuleType::AssetSource => "asset/source",
            ModuleType::AssetResource => "asset/resource",
            ModuleType::AssetInline => "asset/inline",
            ModuleType::Runtime => "runtime",
            ModuleType::Remote => "remote-module",
            ModuleType::Fallback => "fallback-module",
            ModuleType::ProvideShared => "provide-module",
            ModuleType::ConsumeShared => "consume-shared-module",
        }
    }

    /// Reads a configured module type name. A name outside the accepted
    /// spellings is handed back in the error.
    pub fn try_from(value: &str) -> (r: Result<ModuleType, InvalidModuleType>)
        ensures
            match ModuleType::from_name(value@) {
                Some(t) => r == Ok::<ModuleType, InvalidModuleType>(t),
                None => r is Err && r->Err_0.value@ == value@,
            },
    {
        if str_eq(value, "mjs") {
            Ok(ModuleType::JsEsm)
        } else if str_eq(value, "cjs") {
            Ok(ModuleType::JsDynamic)
        } else if str_eq(value, "js") || str_eq(value, "javascript") || str_eq(value, "js/auto")
            || str_eq(value, "javascript/auto") {
            Ok(ModuleType::Js)
        } else if str_eq(value, "js/dynamic") || str_eq(value, "javascript/dynamic") {
            Ok(ModuleType::JsDynamic)
        } else if str_eq(value, "js/esm") || str_eq(value, "javascript/esm") {
            Ok(ModuleType::JsEsm)
        } else if str_eq(value, "jsx") || str_eq(value, "javascriptx") || str_eq(value, "jsx/auto")
            || str_eq(value, "javascriptx/auto") {
            Ok(ModuleType::Jsx)
        } else if str_eq(value, "jsx/dynamic") || str_eq(value, "javascriptx/dynamic") {
            Ok(ModuleType::JsxDynamic)
        } else if str_eq(value, "jsx/esm") || str_eq(value, "javascriptx/esm") {
            Ok(ModuleType::JsxEsm)
        } else if str_eq(value, "ts") || str_eq(value, "typescript") {
            Ok(ModuleType::Ts)
        } else if str_eq(value, "tsx") || str_eq(value, "typescriptx") {
            Ok(ModuleType::Tsx)
        } else if str_eq(value, "css") {
            Ok(ModuleType::Css)
        } else if str_eq(value, "css/module") {
            Ok(ModuleType::CssModule)
        } else if str_eq(value, "css/auto") {
            Ok(ModuleType::CssAuto)
        } else if str_eq(value, "json") {
            Ok(ModuleType::Json)
        } else if str_eq(value, "webassembly/sync") {
            Ok(ModuleType::WasmSync)
        } else if str_eq(value, "webassembly/async") {
            Ok(ModuleType::WasmAsync)
        } else if str_eq(value, "asset") {
            Ok(ModuleType::Asset)
        } else if str_eq(value, "asset/resource") {
            Ok(ModuleType::AssetResource)
        } else if str_eq(value, "asset/source") {
            Ok(ModuleType::AssetSource)
        } else if str_eq(value, "asset/inline") {
            Ok(ModuleType::AssetInline)
        } else {
            Err(InvalidModuleType { value: String::from_str(value) })
        }
    }
}

} // verus!
