use hookline::minimizer::comments_file_name_of;
use hookline::minimizer::extract_comments_pattern;
use hookline::minimizer::is_candidate;
use hookline::minimizer::is_chosen;
use hookline::minimizer::is_module;
use hookline::minimizer::is_script_name;
use hookline::minimizer::license_banner_for;
use hookline::minimizer::match_object;
use hookline::minimizer::minify_options_for;
use hookline::minimizer::BoolOrData;
use hookline::minimizer::SourceMapSetting;
use hookline::minimizer::SwcJsMinimizerRspackPlugin;
use hookline::minimizer::SwcJsMinimizerRspackPluginOptions;
use hookline::minimizer::SwcJsMinimizerRule;
use hookline::minimizer::SwcJsMinimizerRules;
use hookline::module_type::ModuleType;
use hookline::module_type::SourceType;
use hookline::pattern::Pattern;
use hookline::raw_swc_js_minimizer::try_deserialize_into;
use hookline::raw_swc_js_minimizer::InvalidOptions;
use hookline::raw_swc_js_minimizer::RawSwcJsMinimizerRspackPluginOptions;
use hookline::raw_swc_js_minimizer::RawSwcJsMinimizerRule;
use hookline::raw_swc_js_minimizer::RawSwcJsMinimizerRules;
use hookline::request::is_absolute_request;
use hookline::request::is_relative_request;
use hookline::request::package_name_of;
use hookline::wasm_plugin::AsyncWasmPlugin;
use hookline::wasm_plugin::ChunkModule;
use hookline::wasm_plugin::MissingCodeGeneration;
use hookline::wasm_plugin::RenderManifestEntry;

fn plain_options() -> SwcJsMinimizerRspackPluginOptions {
    SwcJsMinimizerRspackPluginOptions {
        extract_comments: None,
        compress: BoolOrData::from_bool(true),
        mangle: BoolOrData::Data("{\"toplevel\":true}".to_string()),
        format: "{}".to_string(),
        test: None,
        included: None,
        excluded: None,
        module: None,
    }
}

fn regexp(source: &str) -> Pattern {
    Pattern::new(source).unwrap()
}

#[test]
fn pattern_compiles_and_matches() {
    let p = regexp(r"\.min\.js$");
    assert_eq!(p.as_str(), r"\.min\.js$");
    assert!(p.test("vendor.min.js"));
    assert!(!p.test("vendor.js"));
    assert!(!p.test(r"\.min\.js$"));
    let copy = p.copy();
    assert_eq!(copy.as_str(), p.as_str());
    assert!(copy.test("a.min.js"));
}

#[test]
fn pattern_refuses_what_is_none() {
    let e = Pattern::new("foo(bar").unwrap_err();
    assert_eq!(e.pattern, "foo(bar");
    assert!(Pattern::new("").is_ok());
}

#[test]
fn rule_matches_by_prefix_or_pattern() {
    let by_text = SwcJsMinimizerRule::String("js/".to_string());
    assert_eq!(by_text.try_match("js/main.js"), Ok(true));
    assert_eq!(by_text.try_match("css/js/main.js"), Ok(false));
    assert_eq!(by_text.try_match("js"), Ok(false));
    let by_pattern = SwcJsMinimizerRule::Regexp(regexp("main"));
    assert_eq!(by_pattern.try_match("css/js/main.js"), Ok(true));
    assert_eq!(by_pattern.try_match("vendor.js"), Ok(false));
}

#[test]
fn rules_match_where_one_rule_does() {
    assert_eq!(SwcJsMinimizerRules::String("a".to_string()).try_match("ab"), Ok(true));
    assert_eq!(SwcJsMinimizerRules::String("b".to_string()).try_match("ab"), Ok(false));
    assert_eq!(SwcJsMinimizerRules::Regexp(regexp("^a.$")).try_match("ab"), Ok(true));
    assert_eq!(SwcJsMinimizerRules::Regexp(regexp("^a$")).try_match("ab"), Ok(false));
    let list = SwcJsMinimizerRules::Array(vec![
        SwcJsMinimizerRule::String("x/".to_string()),
        SwcJsMinimizerRule::Regexp(regexp(r"\.mjs$")),
        SwcJsMinimizerRule::String("y/".to_string()),
    ]);
    assert_eq!(list.try_match("x/a.js"), Ok(true));
    assert_eq!(list.try_match("z/a.mjs"), Ok(true));
    assert_eq!(list.try_match("y/a.js"), Ok(true));
    assert_eq!(list.try_match("z/a.js"), Ok(false));
    assert_eq!(SwcJsMinimizerRules::Array(vec![]).try_match("anything"), Ok(false));
}

#[test]
fn choice_from_three_verdicts() {
    for test in [None, Some(true), Some(false)] {
        for included in [None, Some(true), Some(false)] {
            for excluded in [None, Some(true), Some(false)] {
                let expected =
                    test != Some(false) && included != Some(false) && excluded != Some(true);
                assert_eq!(is_chosen(test, included, excluded), expected);
            }
        }
    }
}

#[test]
fn match_object_combines_conditions() {
    let mut options = plain_options();
    assert_eq!(match_object(&options, "a.js"), Ok(true));
    options.test = Some(SwcJsMinimizerRules::Regexp(regexp(r"\.js$")));
    assert_eq!(match_object(&options, "a.js"), Ok(true));
    assert_eq!(match_object(&options, "a.mjs"), Ok(false));
    options.included = Some(SwcJsMinimizerRules::String("src/".to_string()));
    assert_eq!(match_object(&options, "a.js"), Ok(false));
    assert_eq!(match_object(&options, "src/a.js"), Ok(true));
    options.excluded = Some(SwcJsMinimizerRules::Array(vec![SwcJsMinimizerRule::Regexp(regexp(
        "vendor",
    ))]));
    assert_eq!(match_object(&options, "src/a.js"), Ok(true));
    assert_eq!(match_object(&options, "src/vendor/a.js"), Ok(false));
}

#[test]
fn script_names() {
    for yes in ["a.js", "a.cjs", "a.mjs", ".js", "dir/a.min.js", "a.js.mjs"] {
        assert!(is_script_name(yes), "{yes}");
    }
    for no in ["", "a.jsx", "a.ts", "js", "a.js.map", "a.JS", "a.js "] {
        assert!(!is_script_name(no), "{no}");
    }
}

#[test]
fn candidates_for_minimizing() {
    let mut options = plain_options();
    assert!(is_candidate(&options, "main.js", false));
    assert!(!is_candidate(&options, "main.js", true));
    assert!(!is_candidate(&options, "main.css", false));
    options.excluded = Some(SwcJsMinimizerRules::String("main".to_string()));
    assert!(!is_candidate(&options, "main.js", false));
    assert!(is_candidate(&options, "other.mjs", false));
}

#[test]
fn module_or_script() {
    assert!(is_module(Some(true), Some(false), "a.js"));
    assert!(!is_module(Some(false), Some(true), "a.mjs"));
    assert!(is_module(None, Some(true), "a.js"));
    assert!(!is_module(None, Some(false), "a.mjs"));
    assert!(is_module(None, None, "a.mjs"));
    assert!(!is_module(None, None, "a.js"));
    assert!(!is_module(None, None, "a.cjs"));
}

#[test]
fn minify_options_for_one_script() {
    let options = plain_options();
    let m = minify_options_for(&options, "lib.mjs", true, None, false);
    assert_eq!(m.compress, BoolOrData::Bool(true));
    assert_eq!(m.mangle, BoolOrData::Data("{\"toplevel\":true}".to_string()));
    assert_eq!(m.format, "{}");
    assert!(m.module);
    assert_eq!(m.source_map, SourceMapSetting::Bool(true));
    assert!(m.inline_sources_content);
    assert!(!m.emit_source_map_columns);
    assert!(!m.keep_class_names && !m.keep_fn_names && !m.safari10 && !m.toplevel);
    assert_eq!(m.output_path, None);
    let m = minify_options_for(&options, "lib.js", false, None, true);
    assert!(!m.module);
    assert_eq!(m.source_map, SourceMapSetting::Bool(false));
    assert!(m.emit_source_map_columns);
}

#[test]
fn comments_file_and_banner() {
    assert_eq!(comments_file_name_of("js/main.js"), "js/main.js.LICENSE.txt");
    assert_eq!(comments_file_name_of(""), ".LICENSE.txt");
    assert_eq!(
        license_banner_for("main.js.LICENSE.txt"),
        "/*! For license information please see main.js.LICENSE.txt */"
    );
}

#[test]
fn extract_comments_patterns() {
    assert_eq!(extract_comments_pattern("true"), Some(r"@preserve|@lic|@cc_on|^\**!"));
    assert_eq!(extract_comments_pattern("/@license/i"), Some("@license"));
    assert_eq!(extract_comments_pattern("/ab/"), Some("a"));
    assert_eq!(extract_comments_pattern("abc"), Some(""));
    assert_eq!(extract_comments_pattern("/é/u"), Some("é"));
    assert_eq!(extract_comments_pattern("ab"), None);
    assert_eq!(extract_comments_pattern(""), None);
    assert_eq!(extract_comments_pattern("éab"), None);
    assert_eq!(extract_comments_pattern("abcé"), Some("bc"));
    assert_eq!(extract_comments_pattern("a€"), None);
    assert_eq!(extract_comments_pattern("false"), Some("al"));
    let default = Pattern::new(extract_comments_pattern("true").unwrap()).unwrap();
    assert!(default.test("* @license MIT"));
    assert!(default.test("! keep"));
    assert!(default.test("**! keep"));
    assert!(!default.test(" plain comment"));
}

#[test]
fn minimizer_plugin_holds_its_options() {
    let plugin = SwcJsMinimizerRspackPlugin::new(plain_options());
    assert_eq!(plugin.name(), "rspack.SwcJsMinimizerRspackPlugin");
    assert_eq!(plugin.get_options().format, "{}");
}

fn wasm(id: &str, module_type: ModuleType, generated: Option<Vec<SourceType>>) -> ChunkModule {
    ChunkModule { identifier: id.to_string(), module_type, generated }
}

#[test]
fn wasm_manifest_lists_async_wasm_modules() {
    let mut plugin = AsyncWasmPlugin::new();
    assert_eq!(plugin.name(), "rspack.AsyncWebAssemblyModulesPlugin");
    plugin.module_id_to_filename_without_ext = vec![
        ("a.wasm".to_string(), "out/a".to_string()),
        ("b.wasm".to_string(), "out/b".to_string()),
        ("a.wasm".to_string(), "out/shadowed".to_string()),
    ];
    assert_eq!(plugin.filename_of("b.wasm").map(|s| s.as_str()), Some("out/b"));
    assert_eq!(plugin.filename_of("a.wasm").map(|s| s.as_str()), Some("out/a"));
    assert_eq!(plugin.filename_of("c.wasm"), None);
    let modules = vec![
        wasm("x.js", ModuleType::Js, None),
        wasm("b.wasm", ModuleType::WasmAsync, Some(vec![SourceType::JavaScript, SourceType::Wasm])),
        wasm("sync.wasm", ModuleType::WasmSync, Some(vec![SourceType::Wasm])),
        wasm("nowasm.wasm", ModuleType::WasmAsync, Some(vec![SourceType::JavaScript])),
        wasm("a.wasm", ModuleType::WasmAsync, Some(vec![SourceType::Wasm])),
    ];
    assert_eq!(
        plugin.render_manifest(&modules),
        Ok(vec![
            RenderManifestEntry { module: 1, output_path: "out/b".to_string() },
            RenderManifestEntry { module: 4, output_path: "out/a".to_string() },
        ])
    );
    assert_eq!(plugin.render_manifest(&vec![]), Ok(vec![]));
}

#[test]
fn wasm_manifest_fails_without_generated_code() {
    let mut plugin = AsyncWasmPlugin::new();
    plugin.module_id_to_filename_without_ext = vec![("a.wasm".to_string(), "out/a".to_string())];
    let modules = vec![
        wasm("a.wasm", ModuleType::WasmAsync, Some(vec![SourceType::Wasm])),
        wasm("b.wasm", ModuleType::WasmAsync, None),
        wasm("c.wasm", ModuleType::WasmAsync, None),
    ];
    assert_eq!(plugin.render_manifest(&modules), Err(MissingCodeGeneration { module: 1 }));
}

#[test]
fn request_forms_agree_with_the_patterns_they_stand_for() {
    let relative = regex::Regex::new(r"^\.\.?(\/|$)").unwrap();
    let absolute = regex::Regex::new(r"^(\/|[A-Za-z]:\\|\\\\)").unwrap();
    let package = regex::Regex::new(r"^((?:@[^\\/]+[\\/])?[^\\/]+)").unwrap();
    let pieces = ["", ".", "..", "/", "\\", "@", "a", "Z", ":", "é", "\n", "ab", "c:", "@s"];
    let mut corpus: Vec<String> = Vec::new();
    for a in pieces {
        for b in pieces {
            for c in pieces {
                for d in pieces {
                    corpus.push(format!("{a}{b}{c}{d}"));
                }
            }
        }
    }
    for text in &corpus {
        assert_eq!(is_relative_request(text), relative.is_match(text), "{text:?}");
        assert_eq!(is_absolute_request(text), absolute.is_match(text), "{text:?}");
        let expected = package.captures(text).and_then(|c| c.get(0)).map(|m| m.as_str().to_string());
        assert_eq!(package_name_of(text), expected, "{text:?}");
    }
}

fn raw_options() -> RawSwcJsMinimizerRspackPluginOptions {
    RawSwcJsMinimizerRspackPluginOptions {
        extract_comments: Some("true".to_string()),
        compress: BoolOrData::Data("{\"passes\": 2}".to_string()),
        mangle: BoolOrData::Bool(false),
        format: "{\"comments\": false}".to_string(),
        module: Some(true),
        test: Some(RawSwcJsMinimizerRules::Regexp(r"\.js$".to_string())),
        included: Some(RawSwcJsMinimizerRules::Array(vec![
            RawSwcJsMinimizerRule::String("src/".to_string()),
            RawSwcJsMinimizerRule::Regexp("^lib/".to_string()),
        ])),
        excluded: Some(RawSwcJsMinimizerRules::String("src/vendor".to_string())),
    }
}

#[test]
fn settings_are_read_where_they_are_json() {
    assert_eq!(try_deserialize_into(&BoolOrData::Bool(true)), Ok(BoolOrData::Bool(true)));
    assert_eq!(
        try_deserialize_into(&BoolOrData::Data("{}".to_string())),
        Ok(BoolOrData::Data("{}".to_string()))
    );
    assert_eq!(
        try_deserialize_into(&BoolOrData::Data("{".to_string())),
        Err(InvalidOptions::Json("{".to_string()))
    );
}

#[test]
fn raw_options_become_options() {
    let options = SwcJsMinimizerRspackPluginOptions::try_from(raw_options()).unwrap();
    assert_eq!(options.extract_comments.as_deref(), Some("true"));
    assert_eq!(options.compress, BoolOrData::Data("{\"passes\": 2}".to_string()));
    assert_eq!(options.mangle, BoolOrData::Bool(false));
    assert_eq!(options.format, "{\"comments\": false}");
    assert_eq!(options.module, Some(true));
    assert_eq!(match_object(&options, "src/a.js"), Ok(true));
    assert_eq!(match_object(&options, "lib/a.js"), Ok(true));
    assert_eq!(match_object(&options, "src/a.css"), Ok(false));
    assert_eq!(match_object(&options, "other/a.js"), Ok(false));
    assert_eq!(match_object(&options, "src/vendor/a.js"), Ok(false));
}

#[test]
fn raw_options_are_refused_at_the_first_bad_text() {
    let mut raw = raw_options();
    raw.excluded = Some(RawSwcJsMinimizerRules::Regexp("(".to_string()));
    assert_eq!(
        SwcJsMinimizerRspackPluginOptions::try_from(raw.clone()).unwrap_err(),
        InvalidOptions::Pattern("(".to_string())
    );
    raw.included = Some(RawSwcJsMinimizerRules::Array(vec![
        RawSwcJsMinimizerRule::Regexp("ok".to_string()),
        RawSwcJsMinimizerRule::Regexp("[a".to_string()),
        RawSwcJsMinimizerRule::Regexp("b)".to_string()),
    ]));
    assert_eq!(
        SwcJsMinimizerRspackPluginOptions::try_from(raw.clone()).unwrap_err(),
        InvalidOptions::Pattern("[a".to_string())
    );
    raw.format = "not json".to_string();
    assert_eq!(
        SwcJsMinimizerRspackPluginOptions::try_from(raw.clone()).unwrap_err(),
        InvalidOptions::Json("not json".to_string())
    );
    raw.mangle = BoolOrData::Data("[1,".to_string());
    assert_eq!(
        SwcJsMinimizerRspackPluginOptions::try_from(raw.clone()).unwrap_err(),
        InvalidOptions::Json("[1,".to_string())
    );
    raw.compress = BoolOrData::Data("".to_string());
    assert_eq!(
        SwcJsMinimizerRspackPluginOptions::try_from(raw).unwrap_err(),
        InvalidOptions::Json("".to_string())
    );
}
