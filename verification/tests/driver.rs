use hookline::contract::Event;
use hookline::contract::FailureKind;
use hookline::contract::Reply;
use hookline::contract::ResolveData;
use hookline::disabled::DisabledHooks;
use hookline::driver::Action;
use hookline::driver::Driver;
use hookline::driver::Payload;
use hookline::hook::CallMode;
use hookline::hook::Hook;
use hookline::sequence::ModuleRequest;
use hookline::sequence::Plan;
use hookline::sequence::RequestKind;
use hookline::sequence::Step;
use hookline::stage::ProcessAssetsStage;

fn module(request: &str) -> ModuleRequest {
    ModuleRequest {
        request: request.to_string(),
        context: "/src".to_string(),
        kind: RequestKind::Normal,
        scheme: false,
        cached: false,
    }
}

fn default_answer(hook: Hook, payload: &Payload) -> Reply {
    match hook {
        Hook::BeforeResolve => match payload {
            Payload::Resolve(d) => Reply::Resolve(d.clone()),
            other => panic!("beforeResolve was given {:?}", other),
        },
        Hook::AfterResolve | Hook::ContextModuleBeforeResolve | Hook::ShouldEmit => {
            Reply::Flag(None)
        }
        Hook::NormalModuleFactoryResolveForScheme => match payload {
            Payload::Resource(d) => Reply::Resource(d.clone(), false),
            other => panic!("the scheme resolver was given {:?}", other),
        },
        Hook::ExecuteModule => Reply::Output(None),
        _ => Reply::Unit,
    }
}

struct Run {
    calls: Vec<Hook>,
    resolved: Vec<(usize, ResolveData)>,
    written: Vec<usize>,
    last: Action,
}

fn run_with(plan: Plan, disabled: DisabledHooks, answer: &dyn Fn(Hook, &Payload) -> Event) -> Run {
    let mut driver = Driver::new(plan, disabled);
    let mut calls = Vec::new();
    let mut resolved = Vec::new();
    let mut written = Vec::new();
    let mut action = driver.current();
    let mut turns = 0;
    loop {
        turns += 1;
        assert!(turns < 10_000, "the build does not end");
        action = match action {
            Action::Dispatch { hook, mode, payload } => {
                assert_eq!(mode, hook.call_mode());
                assert_eq!(payload.shape(), hook.payload());
                calls.push(hook);
                driver.resume(answer(hook, &payload))
            }
            Action::Resolve { module, data, .. } => {
                resolved.push((module, data));
                driver.advance()
            }
            Action::WriteAsset { asset } => {
                written.push(asset);
                driver.advance()
            }
            last => {
                assert!(driver.is_over());
                return Run { calls, resolved, written, last };
            }
        };
    }
}

fn count(calls: &[Hook], hook: Hook) -> usize {
    calls.iter().filter(|h| **h == hook).count()
}

#[test]
fn full_build_fires_hooks_in_order() {
    let plan = Plan { modules: vec![module("./a"), module("./b")], chunk_assets: 1, assets: 2 };
    let run = run_with(plan, DisabledHooks::new(), &|h, p| Event::Returned(default_answer(h, p)));
    let mut expected = vec![Hook::Make];
    for _ in 0..2 {
        expected.extend([
            Hook::BeforeResolve,
            Hook::AfterResolve,
            Hook::BuildModule,
            Hook::SucceedModule,
        ]);
    }
    expected.extend([
        Hook::FinishModules,
        Hook::FinishMake,
        Hook::ThisCompilation,
        Hook::Compilation,
        Hook::OptimizeModules,
        Hook::OptimizeTree,
        Hook::OptimizeChunkModules,
        Hook::ChunkAsset,
        Hook::BeforeCompile,
        Hook::AfterCompile,
        Hook::ShouldEmit,
        Hook::Emit,
    ]);
    for stage in ProcessAssetsStage::all() {
        expected.push(stage.hook());
    }
    expected.extend([Hook::AssetEmitted, Hook::AssetEmitted, Hook::AfterEmit]);
    assert_eq!(run.calls, expected);
    assert_eq!(run.written, vec![0, 1]);
    assert_eq!(run.last, Action::Finished { emitted: 2 });
    assert_eq!(run.resolved.len(), 2);
    assert_eq!(run.resolved[0].1.request, "./a");
    assert_eq!(run.resolved[1].1.request, "./b");
}

#[test]
fn disabled_hooks_are_never_dispatched() {
    let disabled = DisabledHooks::from_hooks(&[Hook::OptimizeTree, Hook::ChunkAsset]);
    let plan = Plan { modules: vec![module("./a")], chunk_assets: 3, assets: 5 };
    let run = run_with(plan, disabled, &|h, p| Event::Returned(default_answer(h, p)));
    assert_eq!(count(&run.calls, Hook::OptimizeTree), 0);
    assert_eq!(count(&run.calls, Hook::ChunkAsset), 0);
    assert_eq!(count(&run.calls, Hook::Compilation), 1);
    assert_eq!(count(&run.calls, Hook::Make), 1);
    for stage in ProcessAssetsStage::all() {
        assert_eq!(count(&run.calls, stage.hook()), 1);
    }
    assert_eq!(count(&run.calls, Hook::AssetEmitted), 5);
    assert_eq!(run.written, vec![0, 1, 2, 3, 4]);
    assert_eq!(run.last, Action::Finished { emitted: 5 });
}

#[test]
fn chunk_asset_fires_once_per_pairing() {
    let plan = Plan { modules: vec![], chunk_assets: 3, assets: 0 };
    let run = run_with(plan, DisabledHooks::new(), &|h, p| Event::Returned(default_answer(h, p)));
    assert_eq!(count(&run.calls, Hook::ChunkAsset), 3);
    assert_eq!(count(&run.calls, Hook::BeforeResolve), 0);
    assert_eq!(count(&run.calls, Hook::AssetEmitted), 0);
    assert_eq!(run.last, Action::Finished { emitted: 0 });
}

#[test]
fn should_emit_false_stops_emission() {
    let plan = Plan { modules: vec![module("./a")], chunk_assets: 3, assets: 5 };
    let run = run_with(plan, DisabledHooks::new(), &|h, p| match h {
        Hook::ShouldEmit => Event::Returned(Reply::Flag(Some(false))),
        _ => Event::Returned(default_answer(h, p)),
    });
    assert_eq!(run.last, Action::Finished { emitted: 0 });
    assert!(run.written.is_empty());
    assert_eq!(count(&run.calls, Hook::ShouldEmit), 1);
    assert_eq!(count(&run.calls, Hook::Emit), 0);
    assert_eq!(count(&run.calls, Hook::AssetEmitted), 0);
    assert_eq!(count(&run.calls, Hook::AfterEmit), 0);
    for stage in ProcessAssetsStage::all() {
        assert_eq!(count(&run.calls, stage.hook()), 0);
    }
    assert_eq!(run.calls.last(), Some(&Hook::ShouldEmit));
}

#[test]
fn should_emit_true_or_absent_lets_emission_proceed() {
    for answer in [Some(true), None] {
        let plan = Plan { modules: vec![], chunk_assets: 0, assets: 1 };
        let run = run_with(plan, DisabledHooks::new(), &|h, p| match h {
            Hook::ShouldEmit => Event::Returned(Reply::Flag(answer)),
            _ => Event::Returned(default_answer(h, p)),
        });
        assert_eq!(run.last, Action::Finished { emitted: 1 });
        assert_eq!(count(&run.calls, Hook::Emit), 1);
        assert_eq!(count(&run.calls, Hook::AfterEmit), 1);
    }
}

#[test]
fn should_emit_disabled_lets_emission_proceed() {
    let plan = Plan { modules: vec![], chunk_assets: 0, assets: 2 };
    let disabled = DisabledHooks::from_hooks(&[Hook::ShouldEmit]);
    let run = run_with(plan, disabled, &|h, p| Event::Returned(default_answer(h, p)));
    assert_eq!(count(&run.calls, Hook::ShouldEmit), 0);
    assert_eq!(run.last, Action::Finished { emitted: 2 });
}

#[test]
fn before_resolve_stop_ends_the_module() {
    let plan = Plan { modules: vec![module("./a"), module("./b")], chunk_assets: 0, assets: 0 };
    let run = run_with(plan, DisabledHooks::new(), &|h, p| match (h, p) {
        (Hook::BeforeResolve, Payload::Resolve(d)) if d.request == "./a" => {
            Event::Returned(Reply::Resolve(ResolveData {
                request: "./gone".to_string(),
                context: d.context.clone(),
                stop: Some(true),
            }))
        }
        _ => Event::Returned(default_answer(h, p)),
    });
    assert_eq!(count(&run.calls, Hook::BeforeResolve), 2);
    assert_eq!(count(&run.calls, Hook::AfterResolve), 1);
    assert_eq!(count(&run.calls, Hook::BuildModule), 1);
    assert_eq!(run.resolved.len(), 1);
    assert_eq!(run.resolved[0].0, 1);
    assert_eq!(run.resolved[0].1.request, "./b");
}

#[test]
fn rewritten_request_is_what_gets_resolved() {
    let plan = Plan { modules: vec![module("./a")], chunk_assets: 0, assets: 0 };
    let mut driver = Driver::new(plan, DisabledHooks::from_hooks(&[Hook::Make]));
    let first = driver.current();
    assert_eq!(
        first,
        Action::Dispatch {
            hook: Hook::BeforeResolve,
            mode: CallMode::NonBlocking,
            payload: Payload::Resolve(ResolveData::new("./a".to_string(), "/src".to_string())),
        }
    );
    let rewritten = ResolveData {
        request: "./a-prime".to_string(),
        context: "/elsewhere".to_string(),
        stop: Some(false),
    };
    let next = driver.resume(Event::Returned(Reply::Resolve(rewritten.clone())));
    assert_eq!(next, Action::Resolve { module: 0, data: rewritten.clone(), resource: None });
    let next = driver.advance();
    assert_eq!(
        next,
        Action::Dispatch {
            hook: Hook::AfterResolve,
            mode: CallMode::NonBlocking,
            payload: Payload::Resolved(0, rewritten),
        }
    );
}

#[test]
fn failed_call_gives_the_build_up() {
    let plan = Plan { modules: vec![], chunk_assets: 0, assets: 3 };
    let run = run_with(plan, DisabledHooks::new(), &|h, p| match h {
        Hook::OptimizeModules => Event::Failed(FailureKind::Handler, "boom".to_string()),
        _ => Event::Returned(default_answer(h, p)),
    });
    match run.last {
        Action::Failed(e) => {
            assert_eq!(e.hook, Hook::OptimizeModules);
            assert_eq!(e.kind, FailureKind::Handler);
            assert_eq!(e.detail, "boom");
            assert_eq!(e.message(), "Failed to call optimizeModules: boom");
        }
        other => panic!("the build went on: {:?}", other),
    }
    assert_eq!(run.calls.last(), Some(&Hook::OptimizeModules));
    assert!(run.written.is_empty());
}

#[test]
fn answer_of_the_wrong_form_gives_the_build_up() {
    let plan = Plan { modules: vec![], chunk_assets: 0, assets: 0 };
    let mut driver = Driver::new(plan, DisabledHooks::new());
    let next = driver.resume(Event::Returned(Reply::Flag(Some(true))));
    match next {
        Action::Failed(e) => {
            assert_eq!(e.hook, Hook::Make);
            assert_eq!(e.kind, FailureKind::Malformed);
        }
        other => panic!("the build went on: {:?}", other),
    }
    assert!(driver.is_over());
    assert_eq!(driver.step(), Step::Make);
}

#[test]
fn blocking_hooks_are_marked() {
    let plan = Plan { modules: vec![], chunk_assets: 0, assets: 0 };
    let mut driver = Driver::new(plan, DisabledHooks::new());
    let mut action = driver.current();
    let mut blocking = Vec::new();
    while let Action::Dispatch { hook, mode, payload } = action {
        if mode == CallMode::Blocking {
            blocking.push(hook);
        }
        action = driver.resume(Event::Returned(default_answer(hook, &payload)));
    }
    assert_eq!(blocking, vec![Hook::OptimizeModules]);
    assert_eq!(Hook::ExecuteModule.call_mode(), CallMode::Blocking);
}

#[test]
fn context_and_scheme_and_cached_modules() {
    let plan = Plan {
        modules: vec![
            ModuleRequest {
                request: "./dir".to_string(),
                context: "/src".to_string(),
                kind: RequestKind::Context,
                scheme: false,
                cached: true,
            },
            ModuleRequest {
                request: "data:text/plain,hi".to_string(),
                context: "/src".to_string(),
                kind: RequestKind::Normal,
                scheme: true,
                cached: false,
            },
        ],
        chunk_assets: 0,
        assets: 0,
    };
    let run = run_with(plan, DisabledHooks::new(), &|h, p| Event::Returned(default_answer(h, p)));
    assert_eq!(
        &run.calls[..9],
        &[
            Hook::Make,
            Hook::ContextModuleBeforeResolve,
            Hook::AfterResolve,
            Hook::StillValidModule,
            Hook::BeforeResolve,
            Hook::NormalModuleFactoryResolveForScheme,
            Hook::AfterResolve,
            Hook::BuildModule,
            Hook::SucceedModule,
        ]
    );
}

#[test]
fn stray_reports_change_nothing() {
    let plan = Plan { modules: vec![module("./a")], chunk_assets: 0, assets: 0 };
    let mut driver = Driver::new(plan, DisabledHooks::new());
    let due = driver.current();
    assert_eq!(driver.advance(), due);
    assert_eq!(driver.step(), Step::Make);
    driver.resume(Event::Returned(Reply::Unit));
    let payload = Payload::Resolve(ResolveData::new("./a".to_string(), "/src".to_string()));
    driver.resume(Event::Returned(default_answer(Hook::BeforeResolve, &payload)));
    assert_eq!(driver.step(), Step::Resolve(0));
    let due = driver.current();
    assert_eq!(driver.resume(Event::Returned(Reply::Unit)), due);
    assert_eq!(driver.step(), Step::Resolve(0));
}
