use hookline::adapter::Dispatch;
use hookline::adapter::JsHooksAdapter;
use hookline::contract::Event;
use hookline::contract::FailureKind;
use hookline::contract::PayloadShape;
use hookline::contract::Reply;
use hookline::contract::ReplyShape;
use hookline::contract::ResolveData;
use hookline::contract::ResourceData;
use hookline::disabled::DisabledHooks;
use hookline::hook::CallMode;
use hookline::hook::Hook;
use hookline::hook::HOOK_COUNT;
use hookline::stage::ProcessAssetsStage;
use hookline::stage::STAGE_COUNT;

fn all_hooks() -> Vec<Hook> {
    (0..HOOK_COUNT).map(|i| Hook::from_index(i).unwrap()).collect()
}

#[test]
fn hook_indices_round_trip() {
    let hooks = all_hooks();
    assert_eq!(hooks.len(), 39);
    for (i, hook) in hooks.iter().enumerate() {
        assert_eq!(hook.index() as usize, i);
    }
    assert_eq!(Hook::from_index(HOOK_COUNT), None);
    assert_eq!(Hook::from_index(255), None);
    assert_eq!(Hook::Make.index(), 0);
    assert_eq!(Hook::ExecuteModule.index(), 38);
}

#[test]
fn hook_names_round_trip() {
    for hook in all_hooks() {
        assert_eq!(Hook::from_name(hook.as_str()), Some(hook));
    }
    assert_eq!(Hook::from_name("make"), Some(Hook::Make));
    assert_eq!(Hook::from_name("thisCompilation"), Some(Hook::ThisCompilation));
    assert_eq!(
        Hook::from_name("normalModuleFactoryResolveForScheme"),
        Some(Hook::NormalModuleFactoryResolveForScheme)
    );
    assert_eq!(
        Hook::from_name("processAssetsStageOptimizeCompatibility"),
        Some(Hook::ProcessAssetsStageOptimizeCompatibility)
    );
    assert_eq!(Hook::from_name("Make"), None);
    assert_eq!(Hook::from_name(""), None);
    assert_eq!(Hook::from_name("processAssets"), None);
}

#[test]
fn only_two_hooks_hold_their_caller() {
    for hook in all_hooks() {
        let expected = if hook == Hook::ExecuteModule || hook == Hook::OptimizeModules {
            CallMode::Blocking
        } else {
            CallMode::NonBlocking
        };
        assert_eq!(hook.call_mode(), expected);
    }
}

#[test]
fn hook_payload_and_reply_shapes() {
    assert_eq!(Hook::Make.payload(), PayloadShape::Nothing);
    assert_eq!(Hook::Make.reply(), ReplyShape::Unit);
    assert_eq!(Hook::Compilation.payload(), PayloadShape::Compilation);
    assert_eq!(Hook::ThisCompilation.payload(), PayloadShape::Compilation);
    assert_eq!(Hook::BeforeResolve.payload(), PayloadShape::Resolve);
    assert_eq!(Hook::BeforeResolve.reply(), ReplyShape::Resolve);
    assert_eq!(Hook::AfterResolve.payload(), PayloadShape::Resolved);
    assert_eq!(Hook::AfterResolve.reply(), ReplyShape::Flag);
    assert_eq!(Hook::NormalModuleFactoryResolveForScheme.payload(), PayloadShape::Resource);
    assert_eq!(Hook::NormalModuleFactoryResolveForScheme.reply(), ReplyShape::Resource);
    assert_eq!(Hook::ProcessAssetsStageReport.payload(), PayloadShape::Nothing);
    assert_eq!(Hook::ProcessAssetsStageReport.reply(), ReplyShape::Unit);
    assert_eq!(Hook::ShouldEmit.payload(), PayloadShape::Compilation);
    assert_eq!(Hook::ShouldEmit.reply(), ReplyShape::Flag);
    assert_eq!(Hook::BuildModule.payload(), PayloadShape::Module);
    assert_eq!(Hook::SucceedModule.payload(), PayloadShape::Module);
    assert_eq!(Hook::StillValidModule.payload(), PayloadShape::Module);
    assert_eq!(Hook::ChunkAsset.payload(), PayloadShape::ChunkAsset);
    assert_eq!(Hook::AssetEmitted.payload(), PayloadShape::AssetEmitted);
    assert_eq!(Hook::ExecuteModule.payload(), PayloadShape::ExecuteModule);
    assert_eq!(Hook::ExecuteModule.reply(), ReplyShape::Output);
}

#[test]
fn stages_stand_in_the_fixed_order() {
    let names: Vec<&str> = ProcessAssetsStage::all().iter().map(|s| s.as_str()).collect();
    assert_eq!(
        names,
        vec![
            "additional",
            "preProcess",
            "derived",
            "additions",
            "none",
            "optimize",
            "optimizeCount",
            "optimizeCompatibility",
            "optimizeSize",
            "devTooling",
            "optimizeInline",
            "summarize",
            "optimizeHash",
            "optimizeTransfer",
            "analyse",
            "report",
        ]
    );
    let all = ProcessAssetsStage::all();
    assert_eq!(all.len(), STAGE_COUNT as usize);
    assert_eq!(all[0], ProcessAssetsStage::first());
    assert_eq!(all[15], ProcessAssetsStage::last());
    for (i, stage) in all.iter().enumerate() {
        assert_eq!(stage.index() as usize, i);
        assert_eq!(ProcessAssetsStage::from_index(i as u8), Some(*stage));
        assert_eq!(ProcessAssetsStage::from_hook(stage.hook()), Some(*stage));
        assert_eq!(stage.next(), all.get(i + 1).copied());
        for (j, other) in all.iter().enumerate() {
            assert_eq!(stage.runs_before(other), i < j);
        }
    }
    assert_eq!(ProcessAssetsStage::from_index(16), None);
    assert_eq!(ProcessAssetsStage::from_hook(Hook::Emit), None);
    assert_eq!(ProcessAssetsStage::Plain.hook(), Hook::ProcessAssetsStageNone);
    assert_eq!(ProcessAssetsStage::OptimizeSize.hook().as_str(), "processAssetsStageOptimizeSize");
}

#[test]
fn disabled_set_holds_what_was_put_in() {
    let mut set = DisabledHooks::new();
    for hook in all_hooks() {
        assert!(!set.is_disabled(hook));
    }
    set.insert(Hook::OptimizeTree);
    set.disable(&[Hook::ChunkAsset, Hook::ExecuteModule, Hook::ChunkAsset]);
    for hook in all_hooks() {
        let expected =
            matches!(hook, Hook::OptimizeTree | Hook::ChunkAsset | Hook::ExecuteModule);
        assert_eq!(set.is_disabled(hook), expected);
    }
    let other = DisabledHooks::from_hooks(&[Hook::Make]);
    let both = set.union(&other);
    assert!(both.is_disabled(Hook::Make));
    assert!(both.is_disabled(Hook::ChunkAsset));
    assert!(!both.is_disabled(Hook::Emit));
    assert_eq!(DisabledHooks::from_hooks(&[]), DisabledHooks::new());
    let every = DisabledHooks::from_hooks(&all_hooks());
    for hook in all_hooks() {
        assert!(every.is_disabled(hook));
    }
}

#[test]
fn adapter_bypasses_disabled_hooks() {
    let adapter = JsHooksAdapter::new(DisabledHooks::from_hooks(&[
        Hook::Make,
        Hook::BeforeResolve,
        Hook::NormalModuleFactoryResolveForScheme,
        Hook::ShouldEmit,
        Hook::ExecuteModule,
    ]));
    assert!(adapter.is_hook_disabled(&Hook::Make));
    assert!(!adapter.is_hook_disabled(&Hook::Emit));
    assert_eq!(adapter.dispatch(Hook::Make), Dispatch::Bypass);
    assert_eq!(adapter.dispatch(Hook::Emit), Dispatch::Call(CallMode::NonBlocking));
    assert_eq!(adapter.dispatch(Hook::OptimizeModules), Dispatch::Call(CallMode::Blocking));

    let loud = Some(Event::Failed(FailureKind::Handler, "never read".to_string()));
    assert_eq!(adapter.unit(Hook::Make, loud.clone()), Ok(()));
    assert_eq!(adapter.unit(Hook::Make, None), Ok(()));
    assert_eq!(adapter.should_emit(loud.clone()), Ok(None));
    assert_eq!(adapter.execute_module(loud.clone()), Ok(None));

    let mut args = ResolveData::new("./a".to_string(), "/src".to_string());
    assert_eq!(adapter.before_resolve(&mut args, loud.clone()), Ok(None));
    assert_eq!(args, ResolveData::new("./a".to_string(), "/src".to_string()));

    let resource = ResourceData::new("http://x/y".to_string(), "".to_string());
    assert_eq!(
        adapter.normal_module_factory_resolve_for_scheme(resource.clone(), loud),
        Ok((resource, false))
    );
}

#[test]
fn adapter_reads_answers() {
    let adapter = JsHooksAdapter::new(DisabledHooks::new());
    assert_eq!(adapter.unit(Hook::Make, Some(Event::Returned(Reply::Unit))), Ok(()));
    assert_eq!(
        adapter.after_resolve(Some(Event::Returned(Reply::Flag(Some(true))))),
        Ok(Some(true))
    );
    assert_eq!(
        adapter.context_module_before_resolve(Some(Event::Returned(Reply::Flag(None)))),
        Ok(None)
    );
    assert_eq!(
        adapter.should_emit(Some(Event::Returned(Reply::Flag(Some(false))))),
        Ok(Some(false))
    );
    assert_eq!(
        adapter.execute_module(Some(Event::Returned(Reply::Output(Some("out".to_string()))))),
        Ok(Some("out".to_string()))
    );

    let mut args = ResolveData::new("./a".to_string(), "/src".to_string());
    let rewritten =
        ResolveData { request: "./b".to_string(), context: "/lib".to_string(), stop: Some(true) };
    assert_eq!(
        adapter.before_resolve(&mut args, Some(Event::Returned(Reply::Resolve(rewritten.clone())))),
        Ok(Some(true))
    );
    assert_eq!(args, rewritten);

    let given = ResourceData::new("http://x/y".to_string(), "".to_string());
    let answered = ResourceData {
        resource: "/cache/y".to_string(),
        path: "/cache/y".to_string(),
        query: Some("?q".to_string()),
        fragment: None,
    };
    assert_eq!(
        adapter.normal_module_factory_resolve_for_scheme(
            given,
            Some(Event::Returned(Reply::Resource(answered.clone(), true)))
        ),
        Ok((answered, true))
    );
}

#[test]
fn adapter_tags_errors_with_the_hook() {
    let adapter = JsHooksAdapter::new(DisabledHooks::new());
    let e = adapter
        .unit(Hook::Emit, Some(Event::Failed(FailureKind::Transport, "closed".to_string())))
        .unwrap_err();
    assert_eq!((e.hook, e.kind, e.detail.as_str()), (Hook::Emit, FailureKind::Transport, "closed"));
    assert_eq!(e.message(), "Failed to call emit: closed");

    let e = adapter.unit(Hook::Emit, Some(Event::Returned(Reply::Flag(None)))).unwrap_err();
    assert_eq!((e.hook, e.kind), (Hook::Emit, FailureKind::Malformed));
    assert_eq!(e.message(), "Failed to call emit: malformed answer");

    let e = adapter.execute_module(None).unwrap_err();
    assert_eq!((e.hook, e.kind), (Hook::ExecuteModule, FailureKind::Transport));
    assert_eq!(e.message(), "Failed to call executeModule: no answer delivered");

    let e = adapter
        .execute_module(Some(Event::Failed(FailureKind::Handler, "threw".to_string())))
        .unwrap_err();
    assert_eq!((e.hook, e.kind, e.detail.as_str()), (Hook::ExecuteModule, FailureKind::Handler, "threw"));

    let mut args = ResolveData::new("./a".to_string(), "/src".to_string());
    let e = adapter
        .before_resolve(
            &mut args,
            Some(Event::Failed(FailureKind::ViewConstruction, "no view".to_string())),
        )
        .unwrap_err();
    assert_eq!((e.hook, e.kind), (Hook::BeforeResolve, FailureKind::ViewConstruction));
    assert_eq!(args, ResolveData::new("./a".to_string(), "/src".to_string()));

    let e = adapter
        .should_emit(Some(Event::Returned(Reply::Unit)))
        .unwrap_err();
    assert_eq!((e.hook, e.kind), (Hook::ShouldEmit, FailureKind::Malformed));
}
