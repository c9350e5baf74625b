//! Laws of the bridge, proved over its mathematical model.
//!
//! [`Bridge::dispatch`](crate::bridge::Bridge::dispatch) is one
//! [`step`](crate::bridge::BridgeView::step) of the model, so what is proved
//! here of `step` and of series of steps holds of every run of the bridge.

use crate::bridge::BridgeView;
use crate::bridge::InvocationView;
use crate::error::BridgeErrorView;
use crate::handlers::diagnostic_line;
use crate::lifecycle::LifecycleState;
use crate::outcome::EffectView;
use crate::outcome::OutcomeView;
use crate::outcome::ResponseView;
use crate::outcome::EXIT_SUCCESS;
use crate::registry::Handler;
use vstd::prelude::*;

verus! {

/// On a running bridge an unregistered command name is answered with
/// `UnknownCommand`, whatever the payload; the bridge stays as it was and the
/// host is asked to do nothing.
pub proof fn lemma_unknown_command_has_no_effect(bridge: BridgeView, invocation: InvocationView)
    requires
        bridge.lifecycle == LifecycleState::Running,
        !bridge.registry.dom().contains(invocation.command_name),
    ensures
        bridge.step(invocation) == (
            bridge,
            OutcomeView {
                response: Some(ResponseView::Failure(BridgeErrorView::UnknownCommand)),
                effect: EffectView::Nothing,
            },
        ),
{
}

/// On a running bridge `LogMessage` without a text argument `message` is
/// answered with `InvalidArguments`; the handler does not run, so nothing is
/// written.
pub proof fn lemma_log_without_message_is_rejected(bridge: BridgeView, invocation: InvocationView)
    requires
        bridge.lifecycle == LifecycleState::Running,
        bridge.registry.dom().contains(invocation.command_name),
        bridge.registry[invocation.command_name] == Handler::LogMessage,
        invocation.arguments.text("message"@) is None,
    ensures
        bridge.step(invocation) == (
            bridge,
            OutcomeView {
                response: Some(ResponseView::Failure(BridgeErrorView::InvalidArguments)),
                effect: EffectView::Nothing,
            },
        ),
{
}

/// On a running bridge `LogMessage` with a text argument `message` is
/// acknowledged, and the host is asked to write exactly one line, which holds
/// the message.
pub proof fn lemma_log_writes_one_line(
    bridge: BridgeView,
    invocation: InvocationView,
    message: Seq<char>,
)
    requires
        bridge.lifecycle == LifecycleState::Running,
        bridge.registry.dom().contains(invocation.command_name),
        bridge.registry[invocation.command_name] == Handler::LogMessage,
        invocation.arguments.text("message"@) == Some(message),
    ensures
        bridge.step(invocation) == (
            bridge,
            OutcomeView {
                response: Some(ResponseView::Success(None)),
                effect: EffectView::WriteDiagnostic(diagnostic_line(message)),
            },
        ),
        diagnostic_line(message).len() >= message.len(),
        diagnostic_line(message).subrange(
            diagnostic_line(message).len() - message.len(),
            diagnostic_line(message).len() as int,
        ) == message,
{
    let line = diagnostic_line(message);
    assert(line.subrange(line.len() - message.len(), line.len() as int) =~= message);
}

/// An invocation that reaches `QuitApp` on a running bridge moves the
/// lifecycle to `Terminating`, whatever the payload. The host is asked to end
/// the process with a success status, and the caller gets no response.
pub proof fn lemma_quit_terminates(bridge: BridgeView, invocation: InvocationView)
    requires
        bridge.quits_on(invocation),
    ensures
        bridge.step(invocation) == (
            BridgeView { registry: bridge.registry, lifecycle: LifecycleState::Terminating },
            OutcomeView { response: None, effect: EffectView::Exit(EXIT_SUCCESS) },
        ),
{
}

/// Only `QuitApp` ends the application: a step changes the lifecycle, or asks
/// the host to end the process, exactly when the invocation reaches that
/// handler on a running bridge.
pub proof fn lemma_only_quit_terminates(bridge: BridgeView, invocation: InvocationView)
    ensures
        bridge.step(invocation).0.lifecycle != bridge.lifecycle <==> bridge.quits_on(invocation),
        bridge.step(invocation).1.effect is Exit <==> bridge.quits_on(invocation),
{
}

/// A bridge that is `Terminating` services nothing: every invocation leaves
/// it as it was, gets no response and has no effect.
pub proof fn lemma_terminating_is_absorbing(bridge: BridgeView, invocation: InvocationView)
    requires
        bridge.lifecycle == LifecycleState::Terminating,
    ensures
        bridge.step(invocation) == (bridge, OutcomeView::not_serviced()),
{
}

/// Every invocation on a running bridge gets exactly one response, except the
/// one that ends the application.
pub proof fn lemma_response_is_owed(bridge: BridgeView, invocation: InvocationView)
    requires
        bridge.lifecycle == LifecycleState::Running,
    ensures
        bridge.step(invocation).1.response is None <==> bridge.quits_on(invocation),
{
}

/// Neither of the two handlers fails: no step answers with `HandlerFailure`.
pub proof fn lemma_no_handler_failure(bridge: BridgeView, invocation: InvocationView)
    ensures
        !(bridge.step(invocation).1.response matches Some(ResponseView::Failure(error))
            && error is HandlerFailure),
{
}

/// The registry does not change once the bridge has been set up, however many
/// invocations are dispatched.
pub proof fn lemma_registry_is_immutable(bridge: BridgeView, invocations: Seq<InvocationView>)
    ensures
        bridge.after(invocations).registry == bridge.registry,
    decreases invocations.len(),
{
    if invocations.len() > 0 {
        lemma_registry_is_immutable(bridge, invocations.drop_last());
    }
}

/// The lifecycle never goes back: if the bridge is `Terminating` after the
/// first `i` invocations of a series, it is `Terminating` after the first `j`
/// for every later `j`.
pub proof fn lemma_termination_is_irreversible(
    bridge: BridgeView,
    invocations: Seq<InvocationView>,
    i: int,
    j: int,
)
    requires
        0 <= i <= j <= invocations.len(),
        bridge.after(invocations.take(i)).lifecycle == LifecycleState::Terminating,
    ensures
        bridge.after(invocations.take(j)).lifecycle == LifecycleState::Terminating,
    decreases j - i,
{
    if i < j {
        lemma_termination_is_irreversible(bridge, invocations, i, j - 1);
        assert(invocations.take(j).drop_last() =~= invocations.take(j - 1));
    }
}

/// Once an invocation has reached `QuitApp`, no later invocation of the
/// series is serviced: each finds the bridge `Terminating`, gets no response
/// and has no effect.
pub proof fn lemma_nothing_is_serviced_after_quit(
    bridge: BridgeView,
    invocations: Seq<InvocationView>,
    i: int,
    j: int,
)
    requires
        0 <= i < j < invocations.len(),
        bridge.after(invocations.take(i)).quits_on(invocations[i]),
    ensures
        bridge.after(invocations.take(j)).lifecycle == LifecycleState::Terminating,
        bridge.outcome_at(invocations, j) == OutcomeView::not_serviced(),
{
    assert(invocations.take(i + 1).drop_last() =~= invocations.take(i));
    assert(invocations.take(i + 1).last() == invocations[i]);
    lemma_termination_is_irreversible(bridge, invocations, i + 1, j);
}

/// The application is ended exactly once. However often `quit_app` is
/// invoked in a series, the lifecycle changes at no more than one position,
/// the host is asked to end the process at no more than one position, and
/// that position is the first at which an invocation reaches `QuitApp`.
pub proof fn lemma_quit_happens_once(
    bridge: BridgeView,
    invocations: Seq<InvocationView>,
    i: int,
    j: int,
)
    requires
        0 <= i < invocations.len(),
        0 <= j < invocations.len(),
        bridge.outcome_at(invocations, i).effect is Exit || bridge.after(
            invocations.take(i + 1),
        ).lifecycle != bridge.after(invocations.take(i)).lifecycle,
        bridge.outcome_at(invocations, j).effect is Exit || bridge.after(
            invocations.take(j + 1),
        ).lifecycle != bridge.after(invocations.take(j)).lifecycle,
    ensures
        i == j,
        bridge.after(invocations.take(i)).quits_on(invocations[i]),
        bridge.outcome_at(invocations, i).effect == EffectView::Exit(EXIT_SUCCESS),
{
    assert(invocations.take(i + 1).drop_last() =~= invocations.take(i));
    assert(invocations.take(i + 1).last() == invocations[i]);
    assert(invocations.take(j + 1).drop_last() =~= invocations.take(j));
    assert(invocations.take(j + 1).last() == invocations[j]);
    lemma_only_quit_terminates(bridge.after(invocations.take(i)), invocations[i]);
    lemma_only_quit_terminates(bridge.after(invocations.take(j)), invocations[j]);
    if i < j {
        lemma_nothing_is_serviced_after_quit(bridge, invocations, i, j);
    } else if j < i {
        lemma_nothing_is_serviced_after_quit(bridge, invocations, j, i);
    }
}

} // verus!
