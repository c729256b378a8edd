//! Dispatch of native functions: look the name up, check the payload
//! against the shape that the handler expects, and let the handler say
//! what is to be done.
//!
//! A handler never acts by itself. It answers with a [`NativeAction`],
//! the line to write or the command to launch, and the caller carries
//! that out. A call that fails, for whatever reason, answers with no
//! action at all.

use vstd::prelude::*;
use vstd::string::StringExecFns;
use crate::logging::{add_log, written, LogArguments, LogArgumentsView};
use crate::nmap::{elevated_command, run_nmap, scan_result, scan_verdict, NmapArguments, NmapArgumentsView};
use crate::payload::{Payload, ShapeError, ShapeErrorView};
use crate::platform::Platform;
use crate::process::{ProcessOutcome, ProcessRequest, ProcessRequestView};
use crate::registry::{builtin_table, lemma_builtin_table, NativeFn, Registry};

verus! {

/// A call of a native function: the name to look up and the untyped
/// payload for the handler.
#[derive(Debug, PartialEq, Eq)]
pub struct NativeFnContext {
    pub name: String,
    pub context: Payload,
}

/// What a handler asks its caller to do.
#[derive(Debug, PartialEq, Eq)]
pub enum NativeAction {
    /// Write this line to standard output.
    Print(String),
    /// Launch this command, wait for it, and judge the outcome with
    /// [`conclude_native_fn`].
    Execute(ProcessRequest),
}

/// The mathematical content of a [`NativeAction`].
pub enum NativeActionView {
    Print(Seq<char>),
    Execute(ProcessRequestView),
}

impl DeepView for NativeAction {
    type V = NativeActionView;

    open spec fn deep_view(&self) -> NativeActionView {
        match self {
            NativeAction::Print(line) => NativeActionView::Print(line@),
            NativeAction::Execute(request) => NativeActionView::Execute(request@),
        }
    }
}

impl View for NativeAction {
    type V = NativeActionView;

    open spec fn view(&self) -> NativeActionView {
        self.deep_view()
    }
}

/// Why a call of a native function failed.
#[derive(Debug, PartialEq, Eq)]
pub enum DispatchError {
    /// The registry could not be had.
    RegistryUnavailable,
    /// No handler is registered under this name.
    NotFound(String),
    /// The payload does not have the shape that the handler expects.
    Deserialization { name: String, detail: String },
    /// The handler of this name failed.
    Handler(String),
}

/// The mathematical content of a [`DispatchError`].
pub enum DispatchErrorView {
    RegistryUnavailable,
    NotFound(Seq<char>),
    Deserialization { name: Seq<char>, detail: Seq<char> },
    Handler(Seq<char>),
}

impl DeepView for DispatchError {
    type V = DispatchErrorView;

    open spec fn deep_view(&self) -> DispatchErrorView {
        match self {
            DispatchError::RegistryUnavailable => DispatchErrorView::RegistryUnavailable,
            DispatchError::NotFound(name) => DispatchErrorView::NotFound(name@),
            DispatchError::Deserialization { name, detail } => DispatchErrorView::Deserialization {
                name: name@,
                detail: detail@,
            },
            DispatchError::Handler(name) => DispatchErrorView::Handler(name@),
        }
    }
}

impl View for DispatchError {
    type V = DispatchErrorView;

    open spec fn view(&self) -> DispatchErrorView {
        self.deep_view()
    }
}

impl DispatchErrorView {
    /// The sentence that tells the caller of the failure.
    pub open spec fn message(self) -> Seq<char> {
        match self {
            DispatchErrorView::RegistryUnavailable => "Failed to lock registry"@,
            DispatchErrorView::NotFound(name) => "Fn("@ + name + ") was not found"@,
            DispatchErrorView::Deserialization { name, detail } => "Deserialization error for "@
                + name + ": "@ + detail,
            DispatchErrorView::Handler(name) => "Fn("@ + name + ") failed"@,
        }
    }
}

impl DispatchError {
    /// The sentence that tells the caller of the failure.
    pub fn message(&self) -> (text: String)
        ensures
            text@ == self@.message(),
    {
        match self {
            DispatchError::RegistryUnavailable => String::from_str("Failed to lock registry"),
            DispatchError::NotFound(name) => {
                let mut text = String::from_str("Fn(");
                text.append(name.as_str());
                text.append(") was not found");
                text
            },
            DispatchError::Deserialization { name, detail } => {
                let mut text = String::from_str("Deserialization error for ");
                text.append(name.as_str());
                text.append(": ");
                text.append(detail.as_str());
                text
            },
            DispatchError::Handler(name) => {
                let mut text = String::from_str("Fn(");
                text.append(name.as_str());
                text.append(") failed");
                text
            },
        }
    }
}

/// The mathematical content of a call's result.
pub open spec fn outcome_view(outcome: Result<NativeAction, DispatchError>) -> Result<
    NativeActionView,
    DispatchErrorView,
> {
    match outcome {
        Ok(action) => Ok(action@),
        Err(error) => Err(error@),
    }
}

/// The mathematical content of a handler's result.
pub open spec fn handler_view(result: Result<NativeAction, ()>) -> Option<NativeActionView> {
    match result {
        Ok(action) => Some(action@),
        Err(_) => None,
    }
}

/// What the logging handler asks for on its arguments when the clock
/// reads `clock`: the line to write, if there is one.
pub open spec fn log_action(args: LogArgumentsView, clock: Option<nat>) -> Option<NativeActionView> {
    match args.logged(clock) {
        Some(line) => Some(NativeActionView::Print(line)),
        None => None,
    }
}

/// What the scan handler asks for: the command to launch, if the
/// platform has one.
pub open spec fn scan_action(args: NmapArgumentsView, platform: Platform) -> Option<
    NativeActionView,
> {
    match elevated_command(platform, args.arguments) {
        Some(request) => Some(NativeActionView::Execute(request)),
        None => None,
    }
}

/// The result of a call once the payload was read, or was found not to
/// have the expected shape, and the handler, if it ran, gave `handled`.
pub open spec fn wrapped<T>(
    name: Seq<char>,
    decoded: Result<T, ShapeErrorView>,
    handled: Option<NativeActionView>,
) -> Result<NativeActionView, DispatchErrorView> {
    match decoded {
        Err(fault) => Err(DispatchErrorView::Deserialization { name, detail: fault.describe() }),
        Ok(_) => match handled {
            Some(action) => Ok(action),
            None => Err(DispatchErrorView::Handler(name)),
        },
    }
}

/// What a call of `handler` under `name` answers on `payload`, when the
/// clock reads `clock` (`None` for a clock that cannot be read).
///
/// A payload of the wrong shape gives a deserialization error that names
/// the fault, and no action. A payload of the right shape gives the
/// handler's action, or a handler error where the handler fails.
pub open spec fn handled(
    handler: NativeFn,
    name: Seq<char>,
    payload: Payload,
    platform: Platform,
    clock: Option<nat>,
) -> Result<NativeActionView, DispatchErrorView> {
    match handler {
        NativeFn::Log => wrapped(
            name,
            LogArgumentsView::decode(payload),
            match LogArgumentsView::decode(payload) {
                Ok(args) => log_action(args, clock),
                Err(_) => None,
            },
        ),
        NativeFn::Nmap => wrapped(
            name,
            NmapArgumentsView::decode(payload),
            match NmapArgumentsView::decode(payload) {
                Ok(args) => scan_action(args, platform),
                Err(_) => None,
            },
        ),
    }
}

/// What a call answers, from the lookup on: a missing registry and an
/// unknown name fail before the payload is looked at.
pub open spec fn dispatch(
    table: Option<Map<Seq<char>, NativeFn>>,
    name: Seq<char>,
    payload: Payload,
    platform: Platform,
    clock: Option<nat>,
) -> Result<NativeActionView, DispatchErrorView> {
    match table {
        None => Err(DispatchErrorView::RegistryUnavailable),
        Some(table) => if table.contains_key(name) {
            handled(table[name], name, payload, platform, clock)
        } else {
            Err(DispatchErrorView::NotFound(name))
        },
    }
}

/// Whether `outcome` is what a call under `name` answers when the handler
/// ran on `args` and gave `answer`: the handler's action, or a handler
/// error where the handler failed.
pub open spec fn answered<T, F: FnOnce(T) -> Result<NativeAction, ()>>(
    handler: F,
    name: Seq<char>,
    args: T,
    answer: Result<NativeAction, ()>,
    outcome: Result<NativeAction, DispatchError>,
) -> bool {
    &&& handler.ensures((args,), answer)
    &&& match answer {
        Ok(action) => outcome == Ok::<NativeAction, DispatchError>(action),
        Err(_) => outcome_view(outcome) == Err::<NativeActionView, DispatchErrorView>(
            DispatchErrorView::Handler(name),
        ),
    }
}

/// Whether `outcome` is what the call `ctx` answers when reading its
/// payload gave `decoded`: a deserialization error that carries the
/// call's name and the fault where the payload could not be read, and
/// what the handler's run on the arguments calls for where it could.
pub open spec fn served<
    T,
    D: FnOnce(&Payload) -> Result<T, ShapeError>,
    F: FnOnce(T) -> Result<NativeAction, ()>,
>(
    decode: D,
    handler: F,
    ctx: NativeFnContext,
    decoded: Result<T, ShapeError>,
    outcome: Result<NativeAction, DispatchError>,
) -> bool {
    &&& decode.ensures((&ctx.context,), decoded)
    &&& match decoded {
        Err(fault) => outcome_view(outcome) == Err::<NativeActionView, DispatchErrorView>(
            DispatchErrorView::Deserialization { name: ctx.name@, detail: fault@.describe() },
        ),
        Ok(args) => exists|answer: Result<NativeAction, ()>| #[trigger]
            answered(handler, ctx.name@, args, answer, outcome),
    }
}

/// Makes a typed handler serve an untyped call: `decode` reads the
/// handler's arguments out of the payload, and `handler` runs on what was
/// read.
///
/// Where `decode` fails the handler does not run, and the call fails with
/// a deserialization error that carries the call's name and the fault.
/// Where the handler fails the call fails with a handler error.
/// Otherwise the call answers what the handler answered.
pub fn wrap_native_fn<T, D, F>(decode: D, handler: F, ctx: NativeFnContext) -> (outcome: Result<
    NativeAction,
    DispatchError,
>) where D: FnOnce(&Payload) -> Result<T, ShapeError>, F: FnOnce(T) -> Result<NativeAction, ()>
    requires
        decode.requires((&ctx.context,)),
        forall|args: T|
            decode.ensures((&ctx.context,), Ok::<T, ShapeError>(args)) ==> handler.requires(
                (args,),
            ),
    ensures
        exists|decoded: Result<T, ShapeError>| #[trigger]
            served(decode, handler, ctx, decoded, outcome),
{
    let NativeFnContext { name, context } = ctx;
    let decoded = decode(&context);
    let outcome = match decoded {
        Ok(args) => {
            let answer = handler(args);
            let outcome = match answer {
                Ok(action) => Ok(action),
                Err(_) => Err(DispatchError::Handler(name)),
            };
            assert(answered(handler, ctx.name@, args, answer, outcome));
            outcome
        },
        Err(fault) => Err(DispatchError::Deserialization { name, detail: fault.describe() }),
    };
    assert(served(decode, handler, ctx, decoded, outcome));
    outcome
}

impl NativeFn {
    /// Calls the handler on `ctx`. The answer is the one that [`handled`]
    /// describes for some reading of the clock; only the logging handler
    /// reads the clock, and only where its arguments ask for the time.
    pub fn call(self, ctx: NativeFnContext, platform: Platform) -> (outcome: Result<
        NativeAction,
        DispatchError,
    >)
        ensures
            exists|clock: Option<nat>|
                outcome_view(outcome) == handled(self, ctx.name@, ctx.context, platform, clock),
    {
        match self {
            NativeFn::Log => {
                let log = |args: LogArguments| -> (answer: Result<NativeAction, ()>)
                    ensures
                        exists|clock: Option<nat>| handler_view(answer) == log_action(args@, clock),
                    {
                        let ghost asked = args@;
                        let line = add_log(args);
                        let answer = match line {
                            Ok(line) => Ok(NativeAction::Print(line)),
                            Err(_) => Err(()),
                        };
                        proof {
                            let clock = choose|clock: Option<nat>|
                                written(line) == asked.logged(clock);
                            assert(handler_view(answer) == log_action(asked, clock));
                        }
                        answer
                    };
                let outcome = wrap_native_fn(LogArguments::from_payload, log, ctx);
                proof {
                    let decoded = choose|decoded: Result<LogArguments, ShapeError>| #[trigger]
                        served(LogArguments::from_payload, log, ctx, decoded, outcome);
                    match decoded {
                        Err(_) => {
                            assert(outcome_view(outcome) == handled(
                                self,
                                ctx.name@,
                                ctx.context,
                                platform,
                                None,
                            ));
                        },
                        Ok(args) => {
                            let answer = choose|answer: Result<NativeAction, ()>| #[trigger]
                                answered(log, ctx.name@, args, answer, outcome);
                            let clock = choose|clock: Option<nat>|
                                handler_view(answer) == log_action(args@, clock);
                            assert(outcome_view(outcome) == handled(
                                self,
                                ctx.name@,
                                ctx.context,
                                platform,
                                clock,
                            ));
                        },
                    }
                }
                outcome
            },
            NativeFn::Nmap => {
                let scan = |args: NmapArguments| -> (answer: Result<NativeAction, ()>)
                    ensures
                        handler_view(answer) == scan_action(args@, platform),
                    {
                        match run_nmap(args, platform) {
                            Ok(request) => Ok(NativeAction::Execute(request)),
                            Err(_) => Err(()),
                        }
                    };
                let outcome = wrap_native_fn(NmapArguments::from_payload, scan, ctx);
                proof {
                    let decoded = choose|decoded: Result<NmapArguments, ShapeError>| #[trigger]
                        served(NmapArguments::from_payload, scan, ctx, decoded, outcome);
                    match decoded {
                        Err(_) => {},
                        Ok(args) => {
                            let answer = choose|answer: Result<NativeAction, ()>| #[trigger]
                                answered(scan, ctx.name@, args, answer, outcome);
                        },
                    }
                    assert(outcome_view(outcome) == handled(
                        self,
                        ctx.name@,
                        ctx.context,
                        platform,
                        None,
                    ));
                }
                outcome
            },
        }
    }
}

/// The map of a registry that may be missing.
pub open spec fn table_of(registry: Option<&Registry>) -> Option<Map<Seq<char>, NativeFn>> {
    match registry {
        Some(registry) => Some(registry@),
        None => None,
    }
}

/// Finds the handler registered under `key`. `registry` is `None` where
/// the registry could not be had, which fails the lookup.
pub fn impl_find_fn_in_registry(registry: Option<&Registry>, key: &String) -> (found: Result<
    NativeFn,
    DispatchError,
>)
    requires
        registry matches Some(registry) ==> registry.wf(),
    ensures
        match found {
            Ok(handler) => registry is Some && registry->0@.contains_key(key@) && registry->0@[key@]
                == handler,
            Err(error) => error@ == match registry {
                None => DispatchErrorView::RegistryUnavailable,
                Some(_) => DispatchErrorView::NotFound(key@),
            } && (registry matches Some(registry) ==> !registry@.contains_key(key@)),
        },
{
    match registry {
        None => Err(DispatchError::RegistryUnavailable),
        Some(registry) => match registry.get(key) {
            Some(handler) => Ok(handler),
            None => Err(DispatchError::NotFound(key.clone())),
        },
    }
}

/// Serves a call: finds the handler under the call's name and calls it
/// on the call's payload. The answer is the one that [`dispatch`]
/// describes for some reading of the clock.
pub fn impl_invoke_from_registry(
    registry: Option<&Registry>,
    payload: NativeFnContext,
    platform: Platform,
) -> (outcome: Result<NativeAction, DispatchError>)
    requires
        registry matches Some(registry) ==> registry.wf(),
    ensures
        exists|clock: Option<nat>|
            outcome_view(outcome) == dispatch(
                table_of(registry),
                payload.name@,
                payload.context,
                platform,
                clock,
            ),
{
    match impl_find_fn_in_registry(registry, &payload.name) {
        Ok(handler) => {
            let outcome = handler.call(payload, platform);
            proof {
                let clock = choose|clock: Option<nat>|
                    outcome_view(outcome) == handled(
                        handler,
                        payload.name@,
                        payload.context,
                        platform,
                        clock,
                    );
                assert(outcome_view(outcome) == dispatch(
                    table_of(registry),
                    payload.name@,
                    payload.context,
                    platform,
                    clock,
                ));
            }
            outcome
        },
        Err(error) => {
            let outcome = Err(error);
            assert(outcome_view(outcome) == dispatch(
                table_of(registry),
                payload.name@,
                payload.context,
                platform,
                None,
            ));
            outcome
        },
    }
}

/// What the boundary hears of a call: the action, or the sentence that
/// tells of the failure.
pub open spec fn heard(answer: Result<NativeActionView, DispatchErrorView>) -> Result<
    NativeActionView,
    Seq<char>,
> {
    match answer {
        Ok(action) => Ok(action),
        Err(error) => Err(error.message()),
    }
}

/// The mathematical content of what the boundary hears.
pub open spec fn reply_view(reply: Result<NativeAction, String>) -> Result<
    NativeActionView,
    Seq<char>,
> {
    match reply {
        Ok(action) => Ok(action@),
        Err(message) => Err(message@),
    }
}

/// Invokes a native function for the boundary: as
/// [`impl_invoke_from_registry`], with a failure told as a sentence.
pub fn invoke_native_fn(
    registry: Option<&Registry>,
    invoke_ctx: NativeFnContext,
    platform: Platform,
) -> (reply: Result<NativeAction, String>)
    requires
        registry matches Some(registry) ==> registry.wf(),
    ensures
        exists|clock: Option<nat>|
            reply_view(reply) == heard(
                dispatch(
                    table_of(registry),
                    invoke_ctx.name@,
                    invoke_ctx.context,
                    platform,
                    clock,
                ),
            ),
{
    let outcome = impl_invoke_from_registry(registry, invoke_ctx, platform);
    let reply = match outcome {
        Ok(action) => Ok(action),
        Err(error) => Err(error.message()),
    };
    proof {
        let clock = choose|clock: Option<nat>|
            outcome_view(outcome) == dispatch(
                table_of(registry),
                invoke_ctx.name@,
                invoke_ctx.context,
                platform,
                clock,
            );
        assert(reply_view(reply) == heard(
            dispatch(table_of(registry), invoke_ctx.name@, invoke_ctx.context, platform, clock),
        ));
    }
    reply
}

/// Closes a call whose handler asked for a command: the call succeeds
/// exactly when the command ran and exited with code 0, and fails with a
/// handler error otherwise.
pub fn conclude_native_fn(name: &String, outcome: &ProcessOutcome) -> (result: Result<
    (),
    DispatchError,
>)
    ensures
        match result {
            Ok(_) => scan_verdict(outcome@) is Ok,
            Err(error) => scan_verdict(outcome@) is Err && error@ == DispatchErrorView::Handler(
                name@,
            ),
        },
{
    match scan_result(outcome) {
        Ok(_) => Ok(()),
        Err(_) => Err(DispatchError::Handler(name.clone())),
    }
}

/// Lists the names of the native functions. `registry` is `None` where
/// the registry could not be had, which fails the call. Otherwise every
/// registered name is listed once, in the order of registration.
pub fn get_available_native_functions(registry: Option<&Registry>) -> (listing: Result<
    Vec<String>,
    String,
>)
    requires
        registry matches Some(registry) ==> registry.wf(),
    ensures
        match listing {
            Ok(names) => registry matches Some(registry) && names.deep_view()
                == registry.spec_names() && names.deep_view().no_duplicates()
                && names.deep_view().to_set() == registry@.dom(),
            Err(message) => registry is None
                && message@ == DispatchErrorView::RegistryUnavailable.message(),
        },
{
    match registry {
        Some(registry) => Ok(registry.names()),
        None => Err(DispatchError::RegistryUnavailable.message()),
    }
}

/// A payload of the wrong shape fails the call with a deserialization
/// error, whatever the clock reads, and so yields no action: nothing is
/// written and nothing is launched.
pub proof fn lemma_wrong_shape_gives_no_action(
    table: Map<Seq<char>, NativeFn>,
    name: Seq<char>,
    payload: Payload,
    platform: Platform,
    clock: Option<nat>,
)
    requires
        table.contains_key(name),
        match table[name] {
            NativeFn::Log => LogArgumentsView::decode(payload) is Err,
            NativeFn::Nmap => NmapArgumentsView::decode(payload) is Err,
        },
    ensures
        dispatch(Some(table), name, payload, platform, clock) == Err::<
            NativeActionView,
            DispatchErrorView,
        >(
            DispatchErrorView::Deserialization {
                name,
                detail: match table[name] {
                    NativeFn::Log => LogArgumentsView::decode(payload)->Err_0.describe(),
                    NativeFn::Nmap => NmapArgumentsView::decode(payload)->Err_0.describe(),
                },
            },
        ),
{
}

/// The clock matters to a call only where the logging handler is asked
/// for the time: every other call has one answer, whatever the clock
/// reads.
pub proof fn lemma_clock_matters_to_timed_logs_only(
    table: Option<Map<Seq<char>, NativeFn>>,
    name: Seq<char>,
    payload: Payload,
    platform: Platform,
    one: Option<nat>,
    other: Option<nat>,
)
    requires
        !(table is Some && table->0.contains_key(name) && table->0[name] == NativeFn::Log
            && LogArgumentsView::decode(payload) is Ok
            && LogArgumentsView::decode(payload)->Ok_0.wants_time()),
    ensures
        dispatch(table, name, payload, platform, one) == dispatch(
            table,
            name,
            payload,
            platform,
            other,
        ),
{
}

/// The three kinds of failure of a call are told apart by the error
/// alone: an unknown name, a payload of the wrong shape and a failed
/// handler never give the same error.
pub proof fn lemma_failures_are_distinguishable(name: Seq<char>, detail: Seq<char>)
    ensures
        DispatchErrorView::NotFound(name) != (DispatchErrorView::Deserialization { name, detail }),
        DispatchErrorView::NotFound(name) != DispatchErrorView::Handler(name),
        DispatchErrorView::Handler(name) != (DispatchErrorView::Deserialization { name, detail }),
{
}

/// A listing of the fixed table names every native function that the
/// table registers, whatever the order of the listing: the scan, the
/// logging handler, and the logging handler's second name.
pub proof fn lemma_listing_holds_every_builtin_name(names: Seq<Seq<char>>)
    requires
        names.to_set() == builtin_table().dom(),
    ensures
        names.contains("nmap"@),
        names.contains("log"@),
        names.contains("println!"@),
        forall|name: Seq<char>|
            names.contains(name) ==> name == "nmap"@ || name == "log"@ || name == "println!"@,
{
    lemma_builtin_table();
    assert(names.to_set().contains("nmap"@));
    assert(names.to_set().contains("log"@));
    assert(names.to_set().contains("println!"@));
    assert forall|name: Seq<char>| names.contains(name) implies name == "nmap"@ || name == "log"@
        || name == "println!"@ by {
        assert(names.to_set().contains(name));
    }
}

} // verus!
