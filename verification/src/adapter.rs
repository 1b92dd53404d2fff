//! One call of a handler: whether it is made at all, under which calling
//! convention, and what its outcome means to the build.
//!
//! The call itself is made by the embedding program. It asks
//! [`JsHooksAdapter::dispatch`] first and hands the outcome to the function
//! for the hook's kind of answer.

use crate::contract::opt_text;
use crate::contract::Event;
use crate::contract::EventModel;
use crate::contract::FailureKind;
use crate::contract::HookError;
use crate::contract::HookErrorModel;
use crate::contract::Reply;
use crate::contract::ReplyModel;
use crate::contract::ResolveData;
use crate::contract::ResolveModel;
use crate::contract::ResourceData;
use crate::contract::ResourceModel;
use crate::disabled::DisabledHooks;
use crate::hook::CallMode;
use crate::hook::Hook;
use vstd::prelude::*;

verus! {

/// What to do about a hook that the build has reached.
#[derive(Debug, Clone, Copy, PartialEq, Eq, Hash, Structural)]
pub enum Dispatch {
    /// The hook is switched off: make no call, take the default answer.
    Bypass,
    /// Call the handler, and wait for it in the given way.
    Call(CallMode),
}

/// The detail of the error for an answer of the wrong form.
pub open spec fn malformed_detail() -> Seq<char> {
    "malformed answer"@
}

/// The detail of the error for a call that brought no outcome.
pub open spec fn undelivered_detail() -> Seq<char> {
    "no answer delivered"@
}

/// The answer in an outcome, or the error that the outcome amounts to for
/// `hook`. No outcome at all counts as a call that was not delivered.
pub open spec fn answer_of(hook: Hook, outcome: Option<EventModel>) -> Result<
    ReplyModel,
    HookErrorModel,
> {
    match outcome {
        Some(EventModel::Returned(reply)) => Ok(reply),
        Some(EventModel::Failed(kind, detail)) => Err(HookErrorModel { hook, kind, detail }),
        None => Err(
            HookErrorModel { hook, kind: FailureKind::Transport, detail: undelivered_detail() },
        ),
    }
}

/// The error for an answer of the wrong form.
pub open spec fn malformed(hook: Hook) -> HookErrorModel {
    HookErrorModel { hook, kind: FailureKind::Malformed, detail: malformed_detail() }
}

/// What a hook without an answer of its own comes to.
pub open spec fn unit_result(
    disabled: Set<Hook>,
    hook: Hook,
    outcome: Option<EventModel>,
) -> Result<(), HookErrorModel> {
    if disabled.contains(hook) {
        Ok(())
    } else {
        match answer_of(hook, outcome) {
            Ok(ReplyModel::Unit) => Ok(()),
            Ok(_) => Err(malformed(hook)),
            Err(e) => Err(e),
        }
    }
}

/// What a hook that answers with an optional yes or no comes to.
pub open spec fn flag_result(
    disabled: Set<Hook>,
    hook: Hook,
    outcome: Option<EventModel>,
) -> Result<Option<bool>, HookErrorModel> {
    if disabled.contains(hook) {
        Ok(None)
    } else {
        match answer_of(hook, outcome) {
            Ok(ReplyModel::Flag(b)) => Ok(b),
            Ok(_) => Err(malformed(hook)),
            Err(e) => Err(e),
        }
    }
}

/// What `beforeResolve` comes to: the resolve data as it is afterwards, and
/// the stop signal or the error.
pub open spec fn before_resolve_result(
    disabled: Set<Hook>,
    args: ResolveModel,
    outcome: Option<EventModel>,
) -> (ResolveModel, Result<Option<bool>, HookErrorModel>) {
    if disabled.contains(Hook::BeforeResolve) {
        (args, Ok(None))
    } else {
        match answer_of(Hook::BeforeResolve, outcome) {
            Ok(ReplyModel::Resolve(d)) => (
                ResolveModel { request: d.request, context: d.context, stop: d.stop },
                Ok(d.stop),
            ),
            Ok(_) => (args, Err(malformed(Hook::BeforeResolve))),
            Err(e) => (args, Err(e)),
        }
    }
}

/// What `normalModuleFactoryResolveForScheme` comes to: the resource, as the
/// handler left it, and whether resolution stops there.
pub open spec fn resolve_for_scheme_result(
    disabled: Set<Hook>,
    args: ResourceModel,
    outcome: Option<EventModel>,
) -> Result<(ResourceModel, bool), HookErrorModel> {
    if disabled.contains(Hook::NormalModuleFactoryResolveForScheme) {
        Ok((args, false))
    } else {
        match answer_of(Hook::NormalModuleFactoryResolveForScheme, outcome) {
            Ok(ReplyModel::Resource(d, stop)) => Ok((d, stop)),
            Ok(_) => Err(malformed(Hook::NormalModuleFactoryResolveForScheme)),
            Err(e) => Err(e),
        }
    }
}

/// What `executeModule` comes to.
pub open spec fn execute_module_result(
    disabled: Set<Hook>,
    outcome: Option<EventModel>,
) -> Result<Option<Seq<char>>, HookErrorModel> {
    if disabled.contains(Hook::ExecuteModule) {
        Ok(None)
    } else {
        match answer_of(Hook::ExecuteModule, outcome) {
            Ok(ReplyModel::Output(s)) => Ok(s),
            Ok(_) => Err(malformed(Hook::ExecuteModule)),
            Err(e) => Err(e),
        }
    }
}

/// The content of a result whose error is a [`HookError`].
pub open spec fn unit_view(r: Result<(), HookError>) -> Result<(), HookErrorModel> {
    match r {
        Ok(_) => Ok(()),
        Err(e) => Err(e@),
    }
}

/// The content of a result that carries an optional yes or no.
pub open spec fn flag_view(r: Result<Option<bool>, HookError>) -> Result<
    Option<bool>,
    HookErrorModel,
> {
    match r {
        Ok(b) => Ok(b),
        Err(e) => Err(e@),
    }
}

/// The content of a result that carries a resource and a stop.
pub open spec fn resource_view(r: Result<(ResourceData, bool), HookError>) -> Result<
    (ResourceModel, bool),
    HookErrorModel,
> {
    match r {
        Ok((d, stop)) => Ok((d@, stop)),
        Err(e) => Err(e@),
    }
}

/// The content of a result that carries an optional text.
pub open spec fn output_view(r: Result<Option<String>, HookError>) -> Result<
    Option<Seq<char>>,
    HookErrorModel,
> {
    match r {
        Ok(s) => Ok(opt_text(s)),
        Err(e) => Err(e@),
    }
}

impl HookError {
    /// The text of the message: it names the hook and carries the detail.
    pub open spec fn message_text(self) -> Seq<char> {
        "Failed to call "@ + self.hook.name() + ": "@ + self.detail@
    }

    pub fn message(&self) -> (m: String)
        ensures
            m@ == self.message_text(),
    {
        String::from_str("Failed to call ").concat(self.hook.as_str()).concat(": ").concat(
            self.detail.as_str(),
        )
    }

    fn malformed(hook: Hook) -> (e: HookError)
        ensures
            e@ == malformed(hook),
    {
        HookError {
            hook,
            kind: FailureKind::Malformed,
            detail: String::from_str("malformed answer"),
        }
    }

    fn undelivered(hook: Hook) -> (e: HookError)
        ensures
            e@ == (HookErrorModel {
                hook,
                kind: FailureKind::Transport,
                detail: undelivered_detail(),
            }),
    {
        HookError {
            hook,
            kind: FailureKind::Transport,
            detail: String::from_str("no answer delivered"),
        }
    }
}

/// The answer in `outcome`, or the error it amounts to for `hook`.
fn answer(hook: Hook, outcome: Option<Event>) -> (r: Result<Reply, HookError>)
    ensures
        match answer_of(
            hook,
            match outcome {
                Some(e) => Some(e@),
                None => None,
            },
        ) {
            Ok(reply) => r is Ok && r->Ok_0@ == reply,
            Err(e) => r is Err && r->Err_0@ == e,
        },
{
    match outcome {
        Some(Event::Returned(reply)) => Ok(reply),
        Some(Event::Failed(kind, detail)) => Err(HookError { hook, kind, detail }),
        None => Err(HookError::undelivered(hook)),
    }
}

/// The content of an optional outcome.
pub open spec fn outcome_view(outcome: Option<Event>) -> Option<EventModel> {
    match outcome {
        Some(e) => Some(e@),
        None => None,
    }
}

/// The adapter between the build and the handlers: it knows which hooks are
/// switched off and reads what the handlers answer.
#[derive(Debug, Clone, Copy)]
pub struct JsHooksAdapter {
    disabled_hooks: DisabledHooks,
}

impl JsHooksAdapter {
    /// The hooks that are switched off.
    pub closed spec fn disabled(&self) -> Set<Hook> {
        self.disabled_hooks@
    }

    pub fn new(disabled_hooks: DisabledHooks) -> (a: JsHooksAdapter)
        ensures
            a.disabled() == disabled_hooks@,
    {
        JsHooksAdapter { disabled_hooks }
    }

    pub fn is_hook_disabled(&self, hook: &Hook) -> (b: bool)
        ensures
            b == self.disabled().contains(*hook),
    {
        self.disabled_hooks.is_disabled(*hook)
    }

    /// The hooks that are switched off, as a value of their own.
    pub fn disabled_hooks(&self) -> (d: DisabledHooks)
        ensures
            d@ == self.disabled(),
    {
        self.disabled_hooks
    }

    /// Whether the handler of `hook` is to be called, and how to wait for it.
    /// No call is made for a hook that is switched off.
    pub fn dispatch(&self, hook: Hook) -> (d: Dispatch)
        ensures
            d == if self.disabled().contains(hook) {
                Dispatch::Bypass
            } else {
                Dispatch::Call(hook.mode())
            },
    {
        if self.disabled_hooks.is_disabled(hook) {
            Dispatch::Bypass
        } else {
            Dispatch::Call(hook.call_mode())
        }
    }

    /// Reads the outcome of a hook that has no answer of its own. For a hook
    /// that is switched off the outcome is not read.
    pub fn unit(&self, hook: Hook, outcome: Option<Event>) -> (r: Result<(), HookError>)
        ensures
            unit_view(r) == unit_result(self.disabled(), hook, outcome_view(outcome)),
    {
        if self.disabled_hooks.is_disabled(hook) {
            return Ok(());
        }
        match answer(hook, outcome) {
            Ok(Reply::Unit) => Ok(()),
            Ok(_) => Err(HookError::malformed(hook)),
            Err(e) => Err(e),
        }
    }

    /// Reads the outcome of a hook that answers with an optional yes or no.
    pub fn flag(&self, hook: Hook, outcome: Option<Event>) -> (r: Result<Option<bool>, HookError>)
        ensures
            flag_view(r) == flag_result(self.disabled(), hook, outcome_view(outcome)),
    {
        if self.disabled_hooks.is_disabled(hook) {
            return Ok(None);
        }
        match answer(hook, outcome) {
            Ok(Reply::Flag(b)) => Ok(b),
            Ok(_) => Err(HookError::malformed(hook)),
            Err(e) => Err(e),
        }
    }

    /// Reads the outcome of `beforeResolve`. Request and context become what
    /// the handler made of them, also where it asks to stop.
    pub fn before_resolve(&self, args: &mut ResolveData, outcome: Option<Event>) -> (r: Result<
        Option<bool>,
        HookError,
    >)
        ensures
            (final(args)@, flag_view(r)) == before_resolve_result(
                self.disabled(),
                old(args)@,
                outcome_view(outcome),
            ),
    {
        if self.disabled_hooks.is_disabled(Hook::BeforeResolve) {
            return Ok(None);
        }
        match answer(Hook::BeforeResolve, outcome) {
            Ok(Reply::Resolve(d)) => {
                let stop = d.stop;
                args.request = d.request;
                args.context = d.context;
                args.stop = stop;
                Ok(stop)
            },
            Ok(_) => Err(HookError::malformed(Hook::BeforeResolve)),
            Err(e) => Err(e),
        }
    }

    /// Reads the outcome of `afterResolve`.
    pub fn after_resolve(&self, outcome: Option<Event>) -> (r: Result<Option<bool>, HookError>)
        ensures
            flag_view(r) == flag_result(
                self.disabled(),
                Hook::AfterResolve,
                outcome_view(outcome),
            ),
    {
        self.flag(Hook::AfterResolve, outcome)
    }

    /// Reads the outcome of `contextModuleBeforeResolve`.
    pub fn context_module_before_resolve(&self, outcome: Option<Event>) -> (r: Result<
        Option<bool>,
        HookError,
    >)
        ensures
            flag_view(r) == flag_result(
                self.disabled(),
                Hook::ContextModuleBeforeResolve,
                outcome_view(outcome),
            ),
    {
        self.flag(Hook::ContextModuleBeforeResolve, outcome)
    }

    /// Reads the outcome of `shouldEmit`.
    pub fn should_emit(&self, outcome: Option<Event>) -> (r: Result<Option<bool>, HookError>)
        ensures
            flag_view(r) == flag_result(self.disabled(), Hook::ShouldEmit, outcome_view(outcome)),
    {
        self.flag(Hook::ShouldEmit, outcome)
    }

    /// Reads the outcome of `normalModuleFactoryResolveForScheme`. Where the
    /// hook is switched off the resource stays as it was and nothing stops.
    pub fn normal_module_factory_resolve_for_scheme(
        &self,
        args: ResourceData,
        outcome: Option<Event>,
    ) -> (r: Result<(ResourceData, bool), HookError>)
        ensures
            resource_view(r) == resolve_for_scheme_result(
                self.disabled(),
                args@,
                outcome_view(outcome),
            ),
    {
        if self.disabled_hooks.is_disabled(Hook::NormalModuleFactoryResolveForScheme) {
            return Ok((args, false));
        }
        match answer(Hook::NormalModuleFactoryResolveForScheme, outcome) {
            Ok(Reply::Resource(d, stop)) => {
                let ResourceData { resource, path, query, fragment } = d;
                Ok(
                    (
                        ResourceData::new(resource, path).query_optional(query).fragment_optional(
                            fragment,
                        ),
                        stop,
                    ),
                )
            },
            Ok(_) => Err(HookError::malformed(Hook::NormalModuleFactoryResolveForScheme)),
            Err(e) => Err(e),
        }
    }

    /// Reads the outcome of `executeModule`, whose caller is held until it is
    /// there.
    pub fn execute_module(&self, outcome: Option<Event>) -> (r: Result<Option<String>, HookError>)
        ensures
            output_view(r) == execute_module_result(self.disabled(), outcome_view(outcome)),
    {
        if self.disabled_hooks.is_disabled(Hook::ExecuteModule) {
            return Ok(None);
        }
        match answer(Hook::ExecuteModule, outcome) {
            Ok(Reply::Output(s)) => Ok(s),
            Ok(_) => Err(HookError::malformed(Hook::ExecuteModule)),
            Err(e) => Err(e),
        }
    }
}

/// The caller of a hook that holds its caller gets a result only once the
/// handler produced one: where `executeModule` is not switched off, an
/// output comes from an answer of the handler and from nothing else, and
/// every other outcome is an error that names the hook.
pub proof fn law_blocking_result_needs_answer(disabled: Set<Hook>, outcome: Option<EventModel>)
    requires
        !disabled.contains(Hook::ExecuteModule),
    ensures
        execute_module_result(disabled, outcome) matches Ok(output) ==> outcome == Some(
            EventModel::Returned(ReplyModel::Output(output)),
        ),
        execute_module_result(disabled, outcome) matches Err(e) ==> e.hook == Hook::ExecuteModule,
        Hook::ExecuteModule.mode() == CallMode::Blocking,
{
}

/// A hook that is switched off gives its default, whatever outcome is handed
/// in: nothing, no yes or no, nothing rewritten, no output.
pub proof fn law_bypass_is_default(
    disabled: Set<Hook>,
    hook: Hook,
    outcome: Option<EventModel>,
    args: ResolveModel,
    resource: ResourceModel,
)
    requires
        disabled.contains(hook),
    ensures
        unit_result(disabled, hook, outcome) == Ok::<(), HookErrorModel>(()),
        flag_result(disabled, hook, outcome) == Ok::<Option<bool>, HookErrorModel>(None),
        hook == Hook::BeforeResolve ==> before_resolve_result(disabled, args, outcome) == (
            args,
            Ok::<Option<bool>, HookErrorModel>(None),
        ),
        hook == Hook::NormalModuleFactoryResolveForScheme ==> resolve_for_scheme_result(
            disabled,
            resource,
            outcome,
        ) == Ok::<(ResourceModel, bool), HookErrorModel>((resource, false)),
        hook == Hook::ExecuteModule ==> execute_module_result(disabled, outcome) == Ok::<
            Option<Seq<char>>,
            HookErrorModel,
        >(None),
{
}

/// What the handler of `beforeResolve` made of request and context stands,
/// also where the handler asks to stop.
pub proof fn law_rewrite_is_applied(disabled: Set<Hook>, args: ResolveModel, data: ResolveModel)
    requires
        !disabled.contains(Hook::BeforeResolve),
    ensures
        before_resolve_result(
            disabled,
            args,
            Some(EventModel::Returned(ReplyModel::Resolve(data))),
        ) == (data, Ok::<Option<bool>, HookErrorModel>(data.stop)),
{
}

} // verus!
