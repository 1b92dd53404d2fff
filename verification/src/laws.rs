//! What holds of every build that the driver leads, whatever the handlers
//! answer.
//!
//! A build is described by the states in which the driver rests, one after
//! the other. In each of them but the last, one thing is due: a call of a
//! handler, or work of the build.

use crate::contract::reply_shape;
use crate::contract::EventModel;
use crate::contract::HookErrorModel;
use crate::contract::ReplyModel;
use crate::contract::ResolveModel;
use crate::driver::initial;
use crate::driver::lemma_after_reply_advances;
use crate::driver::lemma_after_work_advances;
use crate::driver::lemma_default_reply_shape;
use crate::driver::lemma_settle;
use crate::driver::ActionModel;
use crate::driver::State;
use crate::hook::Hook;
use crate::sequence::lemma_entries;
use crate::sequence::PlanModel;
use crate::sequence::Step;
use crate::stage::ProcessAssetsStage;
use vstd::prelude::*;

verus! {

/// Where what is due in `s` leads, before hooks that are switched off are
/// passed over: to the state after the answer that `handler` gives for `s`,
/// or after the work of the build; or to the error that ends the build.
pub open spec fn led(plan: PlanModel, handler: spec_fn(State) -> EventModel, s: State) -> Result<
    State,
    HookErrorModel,
> {
    if plan.hook_at(s.step) is Some {
        match plan.judged(s, handler(s)) {
            Ok(reply) => Ok(plan.after_reply(s, reply)),
            Err(e) => Err(e),
        }
    } else {
        Ok(plan.after_work(s))
    }
}

/// The state in which the driver rests next, after what was due in `s` was
/// done: the handler called, with the outcome that `handler` gives for `s`,
/// or the work of the build done.
pub open spec fn moved(
    plan: PlanModel,
    disabled: Set<Hook>,
    handler: spec_fn(State) -> EventModel,
    s: State,
) -> State {
    match led(plan, handler, s) {
        Ok(next) => plan.settle(disabled, next),
        Err(e) => State { failure: Some(e), ..s },
    }
}

/// A move is what the driver does with the outcome of a call, or with the
/// report that work is done.
pub proof fn law_moves_are_the_drivers(
    plan: PlanModel,
    disabled: Set<Hook>,
    handler: spec_fn(State) -> EventModel,
    s: State,
)
    requires
        !plan.over(s),
    ensures
        moved(plan, disabled, handler, s) == if plan.hook_at(s.step) is Some {
            plan.on_event(disabled, s, handler(s))
        } else {
            plan.on_advance(disabled, s)
        },
{
}

/// Where a move leads is a state of the build at a later step.
pub proof fn lemma_led(plan: PlanModel, handler: spec_fn(State) -> EventModel, s: State)
    requires
        plan.sound(s),
        !plan.over(s),
    ensures
        led(plan, handler, s) matches Ok(next) ==> plan.sound(next) && next.failure is None
            && plan.position(s.step) < plan.position(next.step),
        led(plan, handler, s) is Err ==> plan.hook_at(s.step) is Some,
{
    if plan.hook_at(s.step) is Some {
        match plan.judged(s, handler(s)) {
            Ok(reply) => {
                lemma_after_reply_advances(plan, s, reply);
            },
            Err(_) => {},
        }
    } else {
        lemma_after_work_advances(plan, s);
    }
}

/// A bound on the number of states that a build still goes through from `s`.
pub open spec fn weight(plan: PlanModel, s: State) -> nat {
    if plan.over(s) {
        0
    } else {
        plan.remaining(s.step) + 1
    }
}

/// One move leads from a state in which the driver rests to another such
/// state, nearer to the end: either the build is given up at the step that
/// was due, or it goes on at a later step.
pub proof fn lemma_moved(
    plan: PlanModel,
    disabled: Set<Hook>,
    handler: spec_fn(State) -> EventModel,
    s: State,
)
    requires
        plan.sound(s),
        plan.resting(disabled, s),
        !plan.over(s),
    ensures
        plan.sound(moved(plan, disabled, handler, s)),
        plan.resting(disabled, moved(plan, disabled, handler, s)),
        weight(plan, moved(plan, disabled, handler, s)) < weight(plan, s),
        moved(plan, disabled, handler, s).failure is Some ==> moved(plan, disabled, handler, s)
            == (State { failure: moved(plan, disabled, handler, s).failure, ..s }),
        moved(plan, disabled, handler, s).failure is None ==> plan.position(s.step)
            < plan.position(moved(plan, disabled, handler, s).step),
{
    lemma_led(plan, handler, s);
    match led(plan, handler, s) {
        Ok(next) => {
            lemma_settle(plan, disabled, next);
        },
        Err(_) => {},
    }
}

/// The states in which the driver rests in the course of a build, from `s`
/// on and `s` included, where `handler` gives the outcome of each call.
pub open spec fn run(
    plan: PlanModel,
    disabled: Set<Hook>,
    handler: spec_fn(State) -> EventModel,
    s: State,
) -> Seq<State>
    decreases weight(plan, s),
    when plan.sound(s) && plan.resting(disabled, s)
{
    if plan.over(s) {
        seq![s]
    } else {
        proof {
            lemma_moved(plan, disabled, handler, s);
        }
        seq![s] + run(plan, disabled, handler, moved(plan, disabled, handler, s))
    }
}

/// The whole build: the states from the first in which the driver rests.
pub open spec fn build(
    plan: PlanModel,
    disabled: Set<Hook>,
    handler: spec_fn(State) -> EventModel,
) -> Seq<State> {
    run(plan, disabled, handler, plan.settle(disabled, initial()))
}

/// The build begins in a state in which the driver rests.
pub proof fn lemma_build_start(plan: PlanModel, disabled: Set<Hook>)
    requires
        plan.bounded(),
    ensures
        plan.sound(plan.settle(disabled, initial())),
        plan.resting(disabled, plan.settle(disabled, initial())),
{
    lemma_settle(plan, disabled, initial());
}

/// A build is a chain: it begins with `s`, each state but the last leads to
/// the next by one move, and only in the last state the build is over.
pub proof fn lemma_run_chain(
    plan: PlanModel,
    disabled: Set<Hook>,
    handler: spec_fn(State) -> EventModel,
    s: State,
    k: int,
)
    requires
        plan.sound(s),
        plan.resting(disabled, s),
        0 <= k < run(plan, disabled, handler, s).len(),
    ensures
        run(plan, disabled, handler, s)[0] == s,
        plan.sound(run(plan, disabled, handler, s)[k]),
        plan.resting(disabled, run(plan, disabled, handler, s)[k]),
        plan.over(run(plan, disabled, handler, s)[k]) <==> k == run(
            plan,
            disabled,
            handler,
            s,
        ).len() - 1,
        k + 1 < run(plan, disabled, handler, s).len() ==> run(plan, disabled, handler, s)[k + 1]
            == moved(plan, disabled, handler, run(plan, disabled, handler, s)[k]),
    decreases weight(plan, s),
{
    if !plan.over(s) {
        lemma_moved(plan, disabled, handler, s);
        let t = moved(plan, disabled, handler, s);
        let rest = run(plan, disabled, handler, t);
        assert(run(plan, disabled, handler, s) =~= seq![s] + rest);
        lemma_run_chain(plan, disabled, handler, t, 0);
        if k > 0 {
            lemma_run_chain(plan, disabled, handler, t, k - 1);
            assert(run(plan, disabled, handler, s)[k] == rest[k - 1]);
            if k + 1 < run(plan, disabled, handler, s).len() {
                assert(run(plan, disabled, handler, s)[k + 1] == rest[k]);
            }
        } else {
            assert(run(plan, disabled, handler, s)[1] == rest[0]);
        }
    }
}

/// The steps of a build come in the fixed order: of two states of a build,
/// the later is at the later step. Only a state in which the build is given
/// up is at the step of the state before it.
pub proof fn law_steps_in_fixed_order(
    plan: PlanModel,
    disabled: Set<Hook>,
    handler: spec_fn(State) -> EventModel,
    s: State,
    i: int,
    j: int,
)
    requires
        plan.sound(s),
        plan.resting(disabled, s),
        0 <= i < j < run(plan, disabled, handler, s).len(),
    ensures
        run(plan, disabled, handler, s)[i].failure is None,
        plan.position(run(plan, disabled, handler, s)[i].step) <= plan.position(
            run(plan, disabled, handler, s)[j].step,
        ),
        run(plan, disabled, handler, s)[j].failure is None ==> plan.position(
            run(plan, disabled, handler, s)[i].step,
        ) < plan.position(run(plan, disabled, handler, s)[j].step),
    decreases j - i,
{
    let r = run(plan, disabled, handler, s);
    lemma_run_chain(plan, disabled, handler, s, i);
    lemma_run_chain(plan, disabled, handler, s, j - 1);
    lemma_moved(plan, disabled, handler, r[j - 1]);
    if i < j - 1 {
        law_steps_in_fixed_order(plan, disabled, handler, s, i, j - 1);
    }
}

/// No handler is called for a hook that is switched off: whatever is due in
/// a build, it is no call for such a hook.
pub proof fn law_disabled_hook_is_never_dispatched(
    plan: PlanModel,
    disabled: Set<Hook>,
    handler: spec_fn(State) -> EventModel,
    k: int,
)
    requires
        plan.bounded(),
        0 <= k < build(plan, disabled, handler).len(),
    ensures
        plan.action_at(build(plan, disabled, handler)[k]) matches ActionModel::Dispatch {
            hook,
            ..
        } ==> !disabled.contains(hook),
{
    lemma_build_start(plan, disabled);
    lemma_run_chain(plan, disabled, handler, plan.settle(disabled, initial()), k);
}

/// A hook that is switched off is passed over with its default answer: the
/// driver comes to rest where it would after a handler that gave the default
/// answer.
pub proof fn law_disabled_hook_takes_default(plan: PlanModel, disabled: Set<Hook>, s: State)
    requires
        plan.sound(s),
        !plan.over(s),
        plan.hook_at(s.step) matches Some(h) && disabled.contains(h),
    ensures
        plan.settle(disabled, s) == plan.settle(
            disabled,
            plan.after_reply(s, plan.default_reply(s)),
        ),
        plan.settle(disabled, s) == plan.on_event(
            disabled,
            s,
            EventModel::Returned(plan.default_reply(s)),
        ),
{
    lemma_default_reply_shape(plan, s);
}

/// The last state of the build from `s` on, where `s` need not be a state
/// in which the driver rests.
#[verifier::opaque]
pub open spec fn end_of(
    plan: PlanModel,
    disabled: Set<Hook>,
    handler: spec_fn(State) -> EventModel,
    s: State,
) -> State {
    run(plan, disabled, handler, plan.settle(disabled, s)).last()
}

/// Whether `handler` answers every call for `hook` with the default answer.
#[verifier::opaque]
pub open spec fn answers_default(
    plan: PlanModel,
    handler: spec_fn(State) -> EventModel,
    hook: Hook,
) -> bool {
    forall|t: State| #[trigger]
        plan.hook_at(t.step) == Some(hook) ==> handler(t) == EventModel::Returned(
            plan.default_reply(t),
        )
}

/// A handler that answers every call for a hook with the default answer
/// leads, at a step of that hook, to the state after the default answer.
proof fn lemma_default_answer_leads(
    plan: PlanModel,
    handler: spec_fn(State) -> EventModel,
    hook: Hook,
    s: State,
)
    requires
        answers_default(plan, handler, hook),
        plan.hook_at(s.step) == Some(hook),
    ensures
        led(plan, handler, s) == Ok::<State, HookErrorModel>(
            plan.after_reply(s, plan.default_reply(s)),
        ),
{
    reveal(answers_default);
    lemma_default_reply_shape(plan, s);
}

/// The build ends where it stands once it is over.
proof fn lemma_end_when_over(
    plan: PlanModel,
    disabled: Set<Hook>,
    handler: spec_fn(State) -> EventModel,
    s: State,
)
    requires
        plan.sound(s),
        plan.over(s),
    ensures
        end_of(plan, disabled, handler, s) == s,
{
    reveal(end_of);
    lemma_settle(plan, disabled, s);
    assert(run(plan, disabled, handler, s) =~= seq![s]);
}

/// From a step whose hook is switched off, the build ends as it does from
/// the state after the default answer.
proof fn lemma_end_when_passed_over(
    plan: PlanModel,
    disabled: Set<Hook>,
    handler: spec_fn(State) -> EventModel,
    s: State,
)
    requires
        plan.sound(s),
        !plan.resting(disabled, s),
    ensures
        end_of(plan, disabled, handler, s) == end_of(
            plan,
            disabled,
            handler,
            plan.after_reply(s, plan.default_reply(s)),
        ),
{
    reveal(end_of);
}

/// From a state in which the driver rests, the build ends as it does from
/// where the due call or work leads, or in the error of the call.
proof fn lemma_end_when_resting(
    plan: PlanModel,
    disabled: Set<Hook>,
    handler: spec_fn(State) -> EventModel,
    s: State,
)
    requires
        plan.sound(s),
        plan.resting(disabled, s),
        !plan.over(s),
    ensures
        end_of(plan, disabled, handler, s) == match led(plan, handler, s) {
            Ok(next) => end_of(plan, disabled, handler, next),
            Err(e) => State { failure: Some(e), ..s },
        },
{
    reveal(end_of);
    lemma_settle(plan, disabled, s);
    lemma_moved(plan, disabled, handler, s);
    lemma_led(plan, handler, s);
    let t = moved(plan, disabled, handler, s);
    assert(run(plan, disabled, handler, s) =~= seq![s] + run(plan, disabled, handler, t));
    lemma_run_chain(plan, disabled, handler, t, 0);
    assert(run(plan, disabled, handler, s).last() == run(plan, disabled, handler, t).last());
    match led(plan, handler, s) {
        Ok(next) => {
            lemma_settle(plan, disabled, next);
            lemma_settle(plan, disabled, t);
        },
        Err(_) => {
            assert(run(plan, disabled, handler, t) =~= seq![t]);
        },
    }
}

/// To switch a hook off is the same as to have a handler that gives the
/// default answer: where the handler answers every call for `hook` with the
/// default, the build ends in the same state with `hook` switched off as
/// with `hook` left on.
pub proof fn law_disabling_equals_default_answers(
    plan: PlanModel,
    disabled: Set<Hook>,
    handler: spec_fn(State) -> EventModel,
    hook: Hook,
    s: State,
)
    requires
        plan.sound(s),
        answers_default(plan, handler, hook),
    ensures
        end_of(plan, disabled.insert(hook), handler, s) == end_of(
            plan,
            disabled.remove(hook),
            handler,
            s,
        ),
    decreases weight(plan, s),
{
    let off = disabled.insert(hook);
    let on = disabled.remove(hook);
    if plan.over(s) {
        lemma_end_when_over(plan, off, handler, s);
        lemma_end_when_over(plan, on, handler, s);
    } else if !plan.resting(off, s) {
        let t = plan.after_reply(s, plan.default_reply(s));
        lemma_after_reply_advances(plan, s, plan.default_reply(s));
        lemma_end_when_passed_over(plan, off, handler, s);
        if plan.resting(on, s) {
            lemma_default_answer_leads(plan, handler, hook, s);
            lemma_end_when_resting(plan, on, handler, s);
        } else {
            lemma_end_when_passed_over(plan, on, handler, s);
        }
        law_disabling_equals_default_answers(plan, disabled, handler, hook, t);
    } else {
        lemma_end_when_resting(plan, off, handler, s);
        lemma_end_when_resting(plan, on, handler, s);
        lemma_led(plan, handler, s);
        match led(plan, handler, s) {
            Ok(next) => {
                law_disabling_equals_default_answers(plan, disabled, handler, hook, next);
            },
            Err(_) => {},
        }
    }
}

/// A call for the hook of a sub-stage of asset processing is due only at the
/// step of that sub-stage.
pub proof fn lemma_stage_dispatch(plan: PlanModel, s: State, stage: ProcessAssetsStage)
    requires
        plan.sound(s),
        plan.action_at(s) matches ActionModel::Dispatch { hook, .. } && hook == stage.stage_hook(),
    ensures
        s.step == Step::ProcessAssets(stage),
        s.failure is None,
{
}

/// The sub-stages of asset processing run in their fixed order, whatever
/// the handlers are and answer: of two calls for sub-stages in one build,
/// the later call is for the later sub-stage.
pub proof fn law_process_assets_in_stage_order(
    plan: PlanModel,
    disabled: Set<Hook>,
    handler: spec_fn(State) -> EventModel,
    i: int,
    j: int,
    first: ProcessAssetsStage,
    second: ProcessAssetsStage,
)
    requires
        plan.bounded(),
        0 <= i < j < build(plan, disabled, handler).len(),
        plan.action_at(build(plan, disabled, handler)[i]) matches ActionModel::Dispatch {
            hook,
            ..
        } && hook == first.stage_hook(),
        plan.action_at(build(plan, disabled, handler)[j]) matches ActionModel::Dispatch {
            hook,
            ..
        } && hook == second.stage_hook(),
    ensures
        first.ordinal() < second.ordinal(),
{
    let start = plan.settle(disabled, initial());
    lemma_build_start(plan, disabled);
    lemma_run_chain(plan, disabled, handler, start, i);
    lemma_run_chain(plan, disabled, handler, start, j);
    lemma_stage_dispatch(plan, build(plan, disabled, handler)[i], first);
    lemma_stage_dispatch(plan, build(plan, disabled, handler)[j], second);
    law_steps_in_fixed_order(plan, disabled, handler, start, i, j);
}

/// Whether `step` belongs to emitting: the steps that a no to emitting
/// keeps the build from.
pub open spec fn emitting(step: Step) -> bool {
    match step {
        Step::Emit
        | Step::ProcessAssets(_)
        | Step::WriteAsset(_)
        | Step::AssetEmitted(_)
        | Step::AfterEmit => true,
        _ => false,
    }
}

/// A no to emitting ends the build: `emit`, the sub-stages of asset
/// processing and `afterEmit` are not raised in that build, and no file is
/// written.
pub proof fn law_should_emit_no_ends_the_build(
    plan: PlanModel,
    disabled: Set<Hook>,
    handler: spec_fn(State) -> EventModel,
    i: int,
    k: int,
)
    requires
        plan.bounded(),
        0 <= i < build(plan, disabled, handler).len(),
        0 <= k < build(plan, disabled, handler).len(),
        build(plan, disabled, handler)[i].step == Step::ShouldEmit,
        build(plan, disabled, handler)[i].failure is None,
        handler(build(plan, disabled, handler)[i]) == EventModel::Returned(
            ReplyModel::Flag(Some(false)),
        ),
    ensures
        build(plan, disabled, handler).len() == i + 2,
        plan.action_at(build(plan, disabled, handler).last()) == (ActionModel::Finished {
            emitted: 0,
        }),
        !emitting(build(plan, disabled, handler)[k].step),
{
    let start = plan.settle(disabled, initial());
    let b = build(plan, disabled, handler);
    lemma_build_start(plan, disabled);
    lemma_run_chain(plan, disabled, handler, start, i);
    let s = b[i];
    assert(!plan.over(s));
    assert(i + 1 < b.len());
    lemma_run_chain(plan, disabled, handler, start, i + 1);
    let n = plan.after_reply(s, ReplyModel::Flag(Some(false)));
    assert(plan.judged(s, handler(s)) == Ok::<ReplyModel, HookErrorModel>(
        ReplyModel::Flag(Some(false)),
    ));
    lemma_after_reply_advances(plan, s, ReplyModel::Flag(Some(false)));
    lemma_settle(plan, disabled, n);
    assert(b[i + 1] == n);
    assert(plan.over(b[i + 1]));
    if k < i {
        law_steps_in_fixed_order(plan, disabled, handler, start, k, i);
    }
}

/// A yes to emitting, or no answer to the question, lets the build go on
/// with emitting.
pub proof fn law_should_emit_yes_proceeds(
    plan: PlanModel,
    disabled: Set<Hook>,
    handler: spec_fn(State) -> EventModel,
    i: int,
    answer: Option<bool>,
)
    requires
        plan.bounded(),
        0 <= i < build(plan, disabled, handler).len(),
        build(plan, disabled, handler)[i].step == Step::ShouldEmit,
        build(plan, disabled, handler)[i].failure is None,
        handler(build(plan, disabled, handler)[i]) == EventModel::Returned(
            ReplyModel::Flag(answer),
        ),
        answer != Some(false),
    ensures
        i + 1 < build(plan, disabled, handler).len(),
        build(plan, disabled, handler)[i + 1] == plan.settle(
            disabled,
            State { step: Step::Emit, ..build(plan, disabled, handler)[i] },
        ),
        build(plan, disabled, handler)[i + 1].failure is None,
        plan.position(Step::Emit) <= plan.position(build(plan, disabled, handler)[i + 1].step),
{
    let start = plan.settle(disabled, initial());
    let b = build(plan, disabled, handler);
    lemma_build_start(plan, disabled);
    lemma_run_chain(plan, disabled, handler, start, i);
    let s = b[i];
    assert(!plan.over(s));
    lemma_run_chain(plan, disabled, handler, start, i + 1);
    let n = plan.after_reply(s, ReplyModel::Flag(answer));
    assert(plan.judged(s, handler(s)) == Ok::<ReplyModel, HookErrorModel>(ReplyModel::Flag(answer)));
    lemma_after_reply_advances(plan, s, ReplyModel::Flag(answer));
    lemma_settle(plan, disabled, n);
}

/// Whether `step` belongs to the work on module `m` that follows
/// `beforeResolve`.
pub open spec fn resolving(step: Step, m: usize) -> bool {
    step == Step::ResolveForScheme(m) || step == Step::Resolve(m) || step == Step::AfterResolve(m)
        || step == Step::BuildModule(m) || step == Step::ModuleDone(m)
}

/// Whether `reply` asks to stop the resolution of a request.
pub open spec fn asks_to_stop(reply: ReplyModel) -> bool {
    match reply {
        ReplyModel::Resolve(d) => d.stop == Some(true),
        ReplyModel::Flag(b) => b == Some(true),
        _ => false,
    }
}

/// A stop from the handler that is asked before a module is resolved ends
/// the work on that module: the build does not resolve it, and neither
/// `afterResolve` nor a later hook is raised for it.
pub proof fn law_stop_ends_resolution(
    plan: PlanModel,
    disabled: Set<Hook>,
    handler: spec_fn(State) -> EventModel,
    i: int,
    k: int,
    m: usize,
    reply: ReplyModel,
)
    requires
        plan.bounded(),
        0 <= i < build(plan, disabled, handler).len(),
        0 <= k < build(plan, disabled, handler).len(),
        build(plan, disabled, handler)[i].step == Step::BeforeResolve(m),
        build(plan, disabled, handler)[i].failure is None,
        handler(build(plan, disabled, handler)[i]) == EventModel::Returned(reply),
        reply.shape() == reply_shape(plan.hook_at(Step::BeforeResolve(m))->Some_0),
        asks_to_stop(reply),
    ensures
        !resolving(build(plan, disabled, handler)[k].step, m),
{
    let start = plan.settle(disabled, initial());
    let b = build(plan, disabled, handler);
    lemma_build_start(plan, disabled);
    lemma_run_chain(plan, disabled, handler, start, i);
    lemma_run_chain(plan, disabled, handler, start, k);
    let s = b[i];
    if k < i {
        law_steps_in_fixed_order(plan, disabled, handler, start, k, i);
    } else if k > i {
        lemma_run_chain(plan, disabled, handler, start, i + 1);
        let n = plan.after_reply(s, reply);
        assert(plan.judged(s, handler(s)) == Ok::<ReplyModel, HookErrorModel>(reply));
        lemma_after_reply_advances(plan, s, reply);
        lemma_entries(plan, m as nat + 1);
        assert(n.step == plan.module_entry(m as nat + 1));
        lemma_settle(plan, disabled, n);
        assert(b[i + 1] == plan.settle(disabled, n));
        assert(plan.position(Step::ModuleDone(m)) < plan.position(b[i + 1].step));
        if k > i + 1 {
            law_steps_in_fixed_order(plan, disabled, handler, start, i + 1, k);
        }
    }
}

/// What the handler of `beforeResolve` made of request and context is what
/// the build resolves: where the build resolves the module after that
/// answer, it does so from the request and the context of the answer.
pub proof fn law_rewritten_request_is_resolved(
    plan: PlanModel,
    disabled: Set<Hook>,
    handler: spec_fn(State) -> EventModel,
    i: int,
    j: int,
    m: usize,
    data: ResolveModel,
)
    requires
        plan.bounded(),
        0 <= i < j < build(plan, disabled, handler).len(),
        build(plan, disabled, handler)[i].step == Step::BeforeResolve(m),
        plan.hook_at(Step::BeforeResolve(m)) == Some(Hook::BeforeResolve),
        handler(build(plan, disabled, handler)[i]) == EventModel::Returned(
            ReplyModel::Resolve(data),
        ),
        build(plan, disabled, handler)[j].step == Step::Resolve(m),
    ensures
        plan.action_at(build(plan, disabled, handler)[j]) == (ActionModel::Resolve {
            module: m,
            data: data,
            resource: build(plan, disabled, handler)[j].resource,
        }),
{
    let start = plan.settle(disabled, initial());
    let b = build(plan, disabled, handler);
    let reply = ReplyModel::Resolve(data);
    lemma_build_start(plan, disabled);
    lemma_run_chain(plan, disabled, handler, start, i);
    lemma_run_chain(plan, disabled, handler, start, i + 1);
    lemma_run_chain(plan, disabled, handler, start, j);
    law_steps_in_fixed_order(plan, disabled, handler, start, i, j);
    let s = b[i];
    let n = plan.after_reply(s, reply);
    assert(plan.judged(s, handler(s)) == Ok::<ReplyModel, HookErrorModel>(reply));
    lemma_after_reply_advances(plan, s, reply);
    lemma_settle(plan, disabled, n);
    assert(b[i + 1] == plan.settle(disabled, n));
    assert(n.resolve == data);
    if j > i + 1 {
        law_steps_in_fixed_order(plan, disabled, handler, start, i + 1, j);
    }
    if data.stop == Some(true) {
        lemma_entries(plan, m as nat + 1);
        assert(false);
    }
    if n.step == Step::Resolve(m) {
        assert(plan.resting(disabled, n));
        assert(b[i + 1] == n);
        assert(j == i + 1);
    } else {
        assert(n.step == Step::ResolveForScheme(m));
        if plan.resting(disabled, n) {
            assert(b[i + 1] == n);
            assert(j > i + 1);
            lemma_run_chain(plan, disabled, handler, start, i + 2);
            lemma_led(plan, handler, n);
            match led(plan, handler, n) {
                Ok(next) => {
                    lemma_settle(plan, disabled, next);
                    assert(next.step == Step::Resolve(m));
                    assert(plan.resting(disabled, next));
                    assert(b[i + 2] == next);
                    if j > i + 2 {
                        law_steps_in_fixed_order(plan, disabled, handler, start, i + 2, j);
                    }
                    assert(j == i + 2);
                },
                Err(_) => {
                    assert(plan.over(b[i + 2]));
                    assert(j == i + 2);
                    assert(false);
                },
            }
        } else {
            let next = plan.after_reply(n, plan.default_reply(n));
            lemma_after_reply_advances(plan, n, plan.default_reply(n));
            lemma_settle(plan, disabled, next);
            assert(plan.settle(disabled, n) == plan.settle(disabled, next));
            assert(next.step == Step::Resolve(m));
            assert(plan.resting(disabled, next));
            assert(b[i + 1] == next);
            assert(j == i + 1);
        }
    }
}

/// While a call is due the state of the build stands still: a report of
/// work changes nothing, and what is due stays due until the outcome of the
/// call comes in.
pub proof fn law_waiting_changes_nothing(plan: PlanModel, disabled: Set<Hook>, s: State)
    requires
        plan.sound(s),
        plan.action_at(s) is Dispatch,
    ensures
        plan.on_advance(disabled, s) == s,
{
}

/// While work of the build is due, or the build is over, an outcome of a
/// call changes nothing.
pub proof fn law_stray_outcome_is_dropped(
    plan: PlanModel,
    disabled: Set<Hook>,
    s: State,
    event: EventModel,
)
    requires
        plan.sound(s),
        !(plan.action_at(s) is Dispatch),
    ensures
        plan.on_event(disabled, s, event) == s,
{
}

/// A build comes to each step at most once: two states of a build at one
/// step are one state, or the later is the state in which the build is
/// given up at that step.
pub proof fn law_each_step_at_most_once(
    plan: PlanModel,
    disabled: Set<Hook>,
    handler: spec_fn(State) -> EventModel,
    i: int,
    j: int,
)
    requires
        plan.bounded(),
        0 <= i < j < build(plan, disabled, handler).len(),
        build(plan, disabled, handler)[i].step == build(plan, disabled, handler)[j].step,
    ensures
        build(plan, disabled, handler)[j].failure is Some,
        j == build(plan, disabled, handler).len() - 1,
        j == i + 1,
{
    let start = plan.settle(disabled, initial());
    lemma_build_start(plan, disabled);
    law_steps_in_fixed_order(plan, disabled, handler, start, i, j);
    lemma_run_chain(plan, disabled, handler, start, j);
    if i + 1 < j {
        law_steps_in_fixed_order(plan, disabled, handler, start, i, i + 1);
        law_steps_in_fixed_order(plan, disabled, handler, start, i + 1, j);
    }
}

/// A failed call ends the build with an error that names the hook of the
/// call and carries what the call reported; an answer of the wrong form
/// does the same. Nothing else of the state changes, and nothing is due any
/// more.
pub proof fn law_failure_names_the_hook(
    plan: PlanModel,
    disabled: Set<Hook>,
    s: State,
    event: EventModel,
)
    requires
        plan.sound(s),
        plan.action_at(s) is Dispatch,
        plan.judged(s, event) is Err,
    ensures
        plan.on_event(disabled, s, event) == (State {
            failure: Some(plan.judged(s, event)->Err_0),
            ..s
        }),
        plan.judged(s, event)->Err_0.hook == plan.action_at(s)->Dispatch_hook,
        plan.action_at(plan.on_event(disabled, s, event)) == ActionModel::Failed(
            plan.judged(s, event)->Err_0,
        ),
        event matches EventModel::Failed(kind, detail) ==> plan.judged(s, event)->Err_0.kind
            == kind && plan.judged(s, event)->Err_0.detail == detail,
{
}

/// Whether `s` is not at the end, or at the end with every file written.
pub open spec fn complete(plan: PlanModel, s: State) -> bool {
    s.step == Step::Done ==> s.emitted == plan.assets
}

/// Passing over hooks that are switched off never ends a build short of
/// its files.
proof fn lemma_settle_keeps_complete(plan: PlanModel, disabled: Set<Hook>, s: State)
    requires
        plan.sound(s),
        complete(plan, s),
    ensures
        complete(plan, plan.settle(disabled, s)),
    decreases plan.remaining(s.step),
{
    if !plan.resting(disabled, s) {
        let t = plan.after_reply(s, plan.default_reply(s));
        lemma_after_reply_advances(plan, s, plan.default_reply(s));
        lemma_settle_keeps_complete(plan, disabled, t);
    }
}

/// Unless emitting is refused, a build that comes to its end has written
/// every file: where no answer to `shouldEmit` is a no, each state of the
/// build is short of the end or has all files written.
pub proof fn law_build_writes_every_file(
    plan: PlanModel,
    disabled: Set<Hook>,
    handler: spec_fn(State) -> EventModel,
    k: int,
)
    requires
        plan.bounded(),
        0 <= k < build(plan, disabled, handler).len(),
        forall|i: int|
            0 <= i < build(plan, disabled, handler).len() && (#[trigger] build(
                plan,
                disabled,
                handler,
            )[i]).step == Step::ShouldEmit ==> handler(build(plan, disabled, handler)[i])
                != EventModel::Returned(ReplyModel::Flag(Some(false))),
    ensures
        complete(plan, build(plan, disabled, handler)[k]),
    decreases k,
{
    let start = plan.settle(disabled, initial());
    let b = build(plan, disabled, handler);
    lemma_build_start(plan, disabled);
    lemma_run_chain(plan, disabled, handler, start, k);
    if k == 0 {
        lemma_settle_keeps_complete(plan, disabled, initial());
    } else {
        law_build_writes_every_file(plan, disabled, handler, k - 1);
        lemma_run_chain(plan, disabled, handler, start, k - 1);
        let s = b[k - 1];
        lemma_led(plan, handler, s);
        match led(plan, handler, s) {
            Ok(next) => {
                lemma_settle_keeps_complete(plan, disabled, next);
            },
            Err(_) => {},
        }
    }
}

} // verus!
