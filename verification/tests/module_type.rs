use hookline::module_type::ModuleType;
use hookline::module_type::SourceType;

#[test]
fn module_type_names_round_trip() {
    let kinds = [
        ModuleType::Json,
        ModuleType::Css,
        ModuleType::CssModule,
        ModuleType::CssAuto,
        ModuleType::Js,
        ModuleType::JsDynamic,
        ModuleType::JsEsm,
        ModuleType::Jsx,
        ModuleType::JsxDynamic,
        ModuleType::JsxEsm,
        ModuleType::Tsx,
        ModuleType::Ts,
        ModuleType::WasmSync,
        ModuleType::WasmAsync,
        ModuleType::AssetInline,
        ModuleType::AssetResource,
        ModuleType::AssetSource,
        ModuleType::Asset,
    ];
    for kind in kinds {
        assert_eq!(ModuleType::try_from(kind.as_str()), Ok(kind));
    }
}

#[test]
fn module_type_short_spellings() {
    assert_eq!(ModuleType::try_from("mjs"), Ok(ModuleType::JsEsm));
    assert_eq!(ModuleType::try_from("cjs"), Ok(ModuleType::JsDynamic));
    assert_eq!(ModuleType::try_from("js"), Ok(ModuleType::Js));
    assert_eq!(ModuleType::try_from("javascript"), Ok(ModuleType::Js));
    assert_eq!(ModuleType::try_from("js/auto"), Ok(ModuleType::Js));
    assert_eq!(ModuleType::try_from("js/dynamic"), Ok(ModuleType::JsDynamic));
    assert_eq!(ModuleType::try_from("js/esm"), Ok(ModuleType::JsEsm));
    assert_eq!(ModuleType::try_from("jsx"), Ok(ModuleType::Jsx));
    assert_eq!(ModuleType::try_from("jsx/auto"), Ok(ModuleType::Jsx));
    assert_eq!(ModuleType::try_from("javascriptx/auto"), Ok(ModuleType::Jsx));
    assert_eq!(ModuleType::try_from("jsx/dynamic"), Ok(ModuleType::JsxDynamic));
    assert_eq!(ModuleType::try_from("jsx/esm"), Ok(ModuleType::JsxEsm));
    assert_eq!(ModuleType::try_from("ts"), Ok(ModuleType::Ts));
    assert_eq!(ModuleType::try_from("tsx"), Ok(ModuleType::Tsx));
}

#[test]
fn module_type_rejects_unknown_names() {
    let err = ModuleType::try_from("wat").unwrap_err();
    assert_eq!(err.value, "wat");
    assert_eq!(err.message(), "invalid module type: wat");
    assert!(ModuleType::try_from("").is_err());
    assert!(ModuleType::try_from("JS").is_err());
    assert!(ModuleType::try_from("runtime").is_err());
    assert!(ModuleType::try_from("consume-shared-module").is_err());
}

#[test]
fn module_type_families() {
    assert!(ModuleType::Css.is_css_like());
    assert!(ModuleType::CssModule.is_css_like());
    assert!(ModuleType::CssAuto.is_css_like());
    assert!(!ModuleType::Js.is_css_like());

    assert!(ModuleType::Js.is_js_like());
    assert!(ModuleType::Ts.is_js_like());
    assert!(ModuleType::Tsx.is_js_like());
    assert!(ModuleType::JsxDynamic.is_js_like());
    assert!(!ModuleType::Json.is_js_like());

    assert!(ModuleType::Tsx.is_jsx_like());
    assert!(!ModuleType::Ts.is_jsx_like());

    assert!(ModuleType::Asset.is_asset_like());
    assert!(ModuleType::AssetInline.is_asset_like());
    assert!(ModuleType::AssetResource.is_asset_like());
    assert!(!ModuleType::AssetSource.is_asset_like());

    assert!(ModuleType::WasmSync.is_wasm_like());
    assert!(ModuleType::WasmAsync.is_wasm_like());

    assert!(ModuleType::Js.is_js_auto());
    assert!(!ModuleType::JsEsm.is_js_auto());
    assert!(ModuleType::JsEsm.is_js_esm());
    assert!(ModuleType::Ts.is_js_esm());
    assert!(ModuleType::JsDynamic.is_js_dynamic());
    assert!(ModuleType::Tsx.is_js_dynamic());
    assert!(!ModuleType::Js.is_js_dynamic());

    assert!(ModuleType::Asset.is_binary());
    assert!(ModuleType::WasmAsync.is_binary());
    assert!(!ModuleType::AssetSource.is_binary());
    assert!(!ModuleType::Js.is_binary());
}

#[test]
fn source_type_names() {
    assert_eq!(SourceType::JavaScript.as_str(), "javascript");
    assert_eq!(SourceType::ShareInit.as_str(), "share-init");
    assert_eq!(SourceType::ConsumeShared.as_str(), "consume-shared");
    assert_eq!(SourceType::default(), SourceType::Unknown);
    assert_eq!(SourceType::default().as_str(), "unknown");
}
