use hookline::consume::ConsumeOptions;
use hookline::consume::ConsumeVersion;
use hookline::consume_shared_plugin::create_consume_shared_module;
use hookline::consume_shared_plugin::factorize;
use hookline::consume_shared_plugin::normal_module_factory_create_module;
use hookline::consume_shared_plugin::package_to_describe;
use hookline::consume_shared_plugin::request_form;
use hookline::consume_shared_plugin::resolve_base;
use hookline::consume_shared_plugin::resolve_matched_configs;
use hookline::consume_shared_plugin::Consume;
use hookline::consume_shared_plugin::ConsumeSharedPlugin;
use hookline::consume_shared_plugin::DependencyKind;
use hookline::consume_shared_plugin::RequestForm;
use hookline::consume_shared_plugin::ResolveBase;
use hookline::consume_shared_plugin::RuntimeGlobal;
use hookline::description::first_version;
use hookline::description::get_required_version_from_description_file;
use hookline::description::parse_description_file;
use hookline::request::is_absolute_request;
use hookline::request::is_prefix_request;
use hookline::request::is_relative_request;
use hookline::request::package_name_of;
use hookline::text::chars_of;
use hookline::text::ends_with_char;
use hookline::text::head_to;
use hookline::text::starts_with;
use hookline::text::str_eq;
use hookline::text::tail_from;

fn options(share_key: &str) -> ConsumeOptions {
    ConsumeOptions {
        import: Some(share_key.to_string()),
        import_resolved: None,
        share_key: share_key.to_string(),
        share_scope: "default".to_string(),
        required_version: None,
        package_name: None,
        strict_version: false,
        singleton: true,
        eager: false,
    }
}

fn description() -> serde_json::Value {
    let text = r#"{
        "name": "app",
        "optionalDependencies": { "fsevents": "^2.3.0", "react": 18 },
        "dependencies": { "react": "^18.2.0", "@scope/pkg": "1.x", "odd": null },
        "peerDependencies": { "react": ">=16", "vue": "^3", "odd": ["1"] },
        "devDependencies": { "vue": "^2", "jest": "^29", "odd": { "v": "1" } },
        "scripts": "none"
    }"#;
    parse_description_file(text.as_bytes()).unwrap()
}

#[test]
fn text_helpers() {
    assert!(str_eq("", ""));
    assert!(str_eq("héllo", "héllo"));
    assert!(!str_eq("héllo", "hello"));
    assert!(!str_eq("a", "ab"));
    assert_eq!(chars_of("a€b"), vec!['a', '€', 'b']);
    assert!(starts_with("lodash/fp", "lodash/"));
    assert!(starts_with("lodash/", "lodash/"));
    assert!(starts_with("x", ""));
    assert!(!starts_with("lodash", "lodash/"));
    assert!(!starts_with("", "a"));
    assert!(!starts_with("łodash/fp", "lodash"));
    assert!(ends_with_char("a/", '/'));
    assert!(!ends_with_char("a", '/'));
    assert!(!ends_with_char("", '/'));
    assert_eq!(tail_from("prefix/rest", 7), "rest");
    assert_eq!(tail_from("é/rest", 2), "rest");
    assert_eq!(tail_from("abc", 3), "");
    assert_eq!(head_to("é/rest", 2), "é/");
    assert_eq!(head_to("abc", 0), "");
}

#[test]
fn relative_requests() {
    for yes in [".", "..", "./", "../", "./a", "../a/b", "./.", "../.."] {
        assert!(is_relative_request(yes), "{yes}");
    }
    for no in ["", "a", ".a", "..a", "...", ".../", "/a", " ./a", ".\\a", "a/./b"] {
        assert!(!is_relative_request(no), "{no}");
    }
}

#[test]
fn absolute_requests() {
    for yes in ["/", "/a/b", "C:\\a", "z:\\", "\\\\server\\share", "\\\\"] {
        assert!(is_absolute_request(yes), "{yes}");
    }
    for no in ["", "a", "./a", "C:/a", "C:", "1:\\a", "\\a", "é:\\a", "cc:\\a", "a/b"] {
        assert!(!is_absolute_request(no), "{no}");
    }
}

#[test]
fn prefix_requests() {
    assert!(is_prefix_request("lodash/"));
    assert!(is_prefix_request("/"));
    assert!(!is_prefix_request("lodash"));
    assert!(!is_prefix_request(""));
    assert!(!is_prefix_request("lodash\\"));
}

#[test]
fn package_names() {
    let cases = [
        ("react", Some("react")),
        ("react/jsx-runtime", Some("react")),
        ("react\\jsx", Some("react")),
        ("@babel/core", Some("@babel/core")),
        ("@babel/core/lib/index.js", Some("@babel/core")),
        ("@babel\\core\\lib", Some("@babel\\core")),
        ("@babel", Some("@babel")),
        ("@babel/", Some("@babel")),
        ("@babel//x", Some("@babel")),
        ("@/x", Some("@")),
        ("@", Some("@")),
        ("a@b/c", Some("a@b")),
        ("", None),
        ("/abs", None),
        ("\\abs", None),
        ("./rel", Some(".")),
        ("pkg\nname/x", Some("pkg\nname")),
    ];
    for (request, expected) in cases {
        assert_eq!(package_name_of(request).as_deref(), expected, "{request:?}");
    }
}

#[test]
fn request_forms() {
    assert_eq!(request_form("./local"), RequestForm::Relative);
    assert_eq!(request_form("../"), RequestForm::Relative);
    assert_eq!(request_form("/abs/"), RequestForm::Absolute);
    assert_eq!(request_form("C:\\x"), RequestForm::Absolute);
    assert_eq!(request_form("lodash/"), RequestForm::Prefix);
    assert_eq!(request_form("lodash"), RequestForm::Module);
    assert_eq!(request_form(""), RequestForm::Module);
}

#[test]
fn consume_version_text() {
    assert_eq!(ConsumeVersion::Version("^1.2.3".to_string()).to_string(), "^1.2.3");
    assert_eq!(ConsumeVersion::False.to_string(), "*");
}

#[test]
fn description_file_is_parsed() {
    assert!(parse_description_file(b"{}").is_some());
    assert!(parse_description_file(b"[1, 2]").is_some());
    assert!(parse_description_file(b"").is_none());
    assert!(parse_description_file(b"{ \"a\": ").is_none());
    assert!(parse_description_file(b"not json").is_none());
    assert_eq!(
        parse_description_file(b"{\"a\": [true, \"b\"]}"),
        Some(serde_json::Value::Object(
            [(
                "a".to_string(),
                serde_json::Value::Array(vec![
                    serde_json::Value::Bool(true),
                    serde_json::Value::String("b".to_string())
                ])
            )]
            .into_iter()
            .collect()
        ))
    );
}

#[test]
fn description_file_sections_in_order() {
    let file = description();
    let version = |name: &str| get_required_version_from_description_file(&file, name);
    assert_eq!(version("fsevents"), Some(ConsumeVersion::Version("^2.3.0".to_string())));
    assert_eq!(version("react"), Some(ConsumeVersion::Version("^18.2.0".to_string())));
    assert_eq!(version("vue"), Some(ConsumeVersion::Version("^3".to_string())));
    assert_eq!(version("jest"), Some(ConsumeVersion::Version("^29".to_string())));
    assert_eq!(version("@scope/pkg"), Some(ConsumeVersion::Version("1.x".to_string())));
    assert_eq!(version("odd"), None);
    assert_eq!(version("absent"), None);
    assert_eq!(version(""), None);
    assert_eq!(version("scripts"), None);
    for other in ["[]", "\"dependencies\"", "null", "{\"dependencies\": \"react\"}"] {
        let data = parse_description_file(other.as_bytes()).unwrap();
        assert_eq!(get_required_version_from_description_file(&data, "react"), None);
    }
}

#[test]
fn first_version_takes_sections_in_order() {
    let v = |s: &str| Some(s.to_string());
    let version = |s: &str| Some(ConsumeVersion::Version(s.to_string()));
    assert_eq!(first_version(v("a"), v("b"), v("c"), v("d")), version("a"));
    assert_eq!(first_version(None, v("b"), v("c"), v("d")), version("b"));
    assert_eq!(first_version(None, None, v("c"), v("d")), version("c"));
    assert_eq!(first_version(None, None, None, v("d")), version("d"));
    assert_eq!(first_version(None, None, None, None), None);
}

fn sample() -> Vec<Consume> {
    ["./local", "./missing", "/abs/mod.js", "lodash/", "react", "react", "@scope/"]
        .iter()
        .enumerate()
        .map(|(i, r)| Consume { request: r.to_string(), options: options(&format!("key{i}")) })
        .collect()
}

#[test]
fn configs_are_sorted_by_form() {
    let consumes = sample();
    let resolutions = vec![Some("/src/local.js".to_string()), None];
    let (matched, notes) = resolve_matched_configs(&consumes, &resolutions);
    assert_eq!(notes, vec!["Can't resolve shared module ./missing".to_string()]);

    let kind = DependencyKind::Other;
    assert_eq!(
        normal_module_factory_create_module(&matched, kind, "/src/local.js"),
        Some(options("key0"))
    );
    assert_eq!(
        normal_module_factory_create_module(&matched, kind, "/abs/mod.js"),
        Some(options("key2"))
    );
    assert_eq!(normal_module_factory_create_module(&matched, kind, "./local"), None);
    assert_eq!(normal_module_factory_create_module(&matched, kind, "react"), None);
    assert_eq!(
        normal_module_factory_create_module(
            &matched,
            DependencyKind::ConsumeSharedFallback,
            "/abs/mod.js"
        ),
        None
    );

    assert_eq!(factorize(&matched, kind, "react"), Some(options("key5")));
    assert_eq!(factorize(&matched, DependencyKind::ProvideModuleForShared, "react"), None);
    assert_eq!(factorize(&matched, DependencyKind::ConsumeSharedFallback, "lodash/fp"), None);
    assert_eq!(factorize(&matched, kind, "vue"), None);
    assert_eq!(factorize(&matched, kind, "lodash"), None);
    assert_eq!(factorize(&matched, kind, "/abs/mod.js"), None);

    let below = factorize(&matched, kind, "lodash/fp/get").unwrap();
    assert_eq!(below.import.as_deref(), Some("key3fp/get"));
    assert_eq!(below.share_key, "key3fp/get");
    assert_eq!(below.share_scope, "default");
    assert!(below.singleton);

    let exact = factorize(&matched, kind, "@scope/").unwrap();
    assert_eq!(exact.share_key, "key6");
    assert_eq!(exact.import.as_deref(), Some("key6"));
}

#[test]
fn prefix_without_fallback_stays_without() {
    let mut o = options("k");
    o.import = None;
    let consumes = vec![Consume { request: "lib/".to_string(), options: o }];
    let (matched, notes) = resolve_matched_configs(&consumes, &vec![]);
    assert!(notes.is_empty());
    let found = factorize(&matched, DependencyKind::Other, "lib/x").unwrap();
    assert_eq!(found.import, None);
    assert_eq!(found.share_key, "kx");
}

#[test]
fn relative_request_without_resolution_is_noted() {
    let consumes = vec![Consume { request: "../up".to_string(), options: options("k") }];
    let (matched, notes) = resolve_matched_configs(&consumes, &vec![]);
    assert_eq!(notes, vec!["Can't resolve shared module ../up".to_string()]);
    assert_eq!(normal_module_factory_create_module(&matched, DependencyKind::Other, "../up"), None);
}

#[test]
fn fallback_base() {
    let mut o = options("k");
    o.import = Some("./fallback".to_string());
    assert_eq!(resolve_base(&o), ResolveBase::Compiler);
    o.import = Some("/abs/fallback".to_string());
    assert_eq!(resolve_base(&o), ResolveBase::Compiler);
    o.import = Some("react".to_string());
    assert_eq!(resolve_base(&o), ResolveBase::Issuer);
    o.import = None;
    assert_eq!(resolve_base(&o), ResolveBase::Issuer);
}

#[test]
fn package_to_describe_cases() {
    let mut o = options("k");
    assert_eq!(package_to_describe(&o, "react/jsx").as_deref(), Some("react"));
    assert_eq!(package_to_describe(&o, "@s/p/x").as_deref(), Some("@s/p"));
    assert_eq!(package_to_describe(&o, "/abs/x"), None);
    assert_eq!(package_to_describe(&o, ""), None);
    o.package_name = Some("named".to_string());
    assert_eq!(package_to_describe(&o, "/abs/x").as_deref(), Some("named"));
    o.required_version = Some(ConsumeVersion::False);
    assert_eq!(package_to_describe(&o, "react"), None);
}

#[test]
fn module_options_are_settled() {
    let file = description();
    let config = options("react");
    let made = create_consume_shared_module(
        &config,
        "react/jsx-runtime",
        Some("/node_modules/react/index.js".to_string()),
        Some(&file),
    );
    assert_eq!(made.import.as_deref(), Some("react"));
    assert_eq!(made.import_resolved.as_deref(), Some("/node_modules/react/index.js"));
    assert_eq!(made.required_version, Some(ConsumeVersion::Version("^18.2.0".to_string())));
    assert_eq!(made.share_key, "react");
    assert_eq!(made.package_name, None);

    let made = create_consume_shared_module(&config, "react", None, Some(&file));
    assert_eq!(made.import, None);
    assert_eq!(made.import_resolved, None);

    let made = create_consume_shared_module(&config, "react", None, None);
    assert_eq!(made.required_version, None);

    let made = create_consume_shared_module(&config, "/abs/react", None, Some(&file));
    assert_eq!(made.required_version, None);

    let mut named = options("x");
    named.package_name = Some("vue".to_string());
    let made = create_consume_shared_module(&named, "/abs/x", None, Some(&file));
    assert_eq!(made.required_version, Some(ConsumeVersion::Version("^3".to_string())));
    assert_eq!(made.package_name.as_deref(), Some("vue"));

    let mut fixed = options("react");
    fixed.required_version = Some(ConsumeVersion::False);
    let made = create_consume_shared_module(&fixed, "react", None, Some(&file));
    assert_eq!(made.required_version, Some(ConsumeVersion::False));
}

#[test]
fn plugin_learns_at_the_start_of_a_build() {
    let consumes: Vec<(String, ConsumeOptions)> =
        sample().into_iter().map(|c| (c.request, c.options)).collect();
    let mut plugin = ConsumeSharedPlugin::new(consumes);
    assert_eq!(plugin.name(), "rspack.ConsumeSharedPlugin");
    assert_eq!(
        plugin.requests_to_resolve(),
        vec![(0, "./local".to_string()), (1, "./missing".to_string())]
    );
    let notes = plugin
        .this_compilation("/project".to_string(), &vec![Some("/project/local.js".to_string())]);
    assert_eq!(notes, vec!["Can't resolve shared module ./missing".to_string()]);
    assert_eq!(plugin.get_context(), "/project");
    let matched = plugin.get_matched_consumes();
    assert_eq!(
        normal_module_factory_create_module(matched, DependencyKind::Other, "/project/local.js"),
        Some(options("key0"))
    );
    assert_eq!(
        plugin.additional_tree_runtime_requirements(),
        vec![
            RuntimeGlobal::Module,
            RuntimeGlobal::ModuleCache,
            RuntimeGlobal::ModuleFactoriesAddOnly,
            RuntimeGlobal::ShareScopeMap,
            RuntimeGlobal::InitializeSharing,
            RuntimeGlobal::HasOwnProperty,
        ]
    );
}
