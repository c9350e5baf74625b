//! The dispatch bridge: the one place that looks at what the front-end sent.

use crate::call::Call;
use crate::call::CallView;
use crate::error::BridgeErrorView;
use crate::handlers::diagnostic_line;
use crate::handlers::log_message;
use crate::handlers::quit_app;
use crate::lifecycle::LifecycleState;
use crate::outcome::respond;
use crate::outcome::response_for;
use crate::outcome::Effect;
use crate::outcome::EffectView;
use crate::outcome::HandlerResult;
use crate::outcome::HandlerResultView;
use crate::outcome::Outcome;
use crate::outcome::OutcomeView;
use crate::outcome::Response;
use crate::outcome::EXIT_SUCCESS;
use crate::payload::Payload;
use crate::payload::PayloadView;
use crate::registry::standard_commands;
use crate::registry::Handler;
use crate::registry::Registry;
use vstd::prelude::*;

verus! {

/// One request from the front-end: a command name and its arguments.
#[derive(Debug, PartialEq, Eq)]
pub struct Invocation {
    pub command_name: String,
    pub arguments: Payload,
}

/// The mathematical value of an [`Invocation`].
pub struct InvocationView {
    pub command_name: Seq<char>,
    pub arguments: PayloadView,
}

impl View for Invocation {
    type V = InvocationView;

    open spec fn view(&self) -> InvocationView {
        InvocationView { command_name: self.command_name@, arguments: self.arguments@ }
    }
}

impl Invocation {
    /// An invocation of the command called `command_name`.
    pub fn new(command_name: &str, arguments: Payload) -> (invocation: Invocation)
        ensures
            invocation@ == (InvocationView {
                command_name: command_name@,
                arguments: arguments@,
            }),
    {
        Invocation { command_name: command_name.to_owned(), arguments }
    }
}

/// The bridge: a registry that no longer changes, and the lifecycle state.
///
/// A dispatch holds the bridge exclusively from its first step to its last,
/// so no invocation can observe another one half done. Between dispatches
/// the bridge is idle while the lifecycle is `Running`, and terminated for
/// good once it is `Terminating`. A host that receives invocations on
/// several threads keeps the bridge behind a lock.
pub struct Bridge {
    registry: Registry,
    lifecycle: LifecycleState,
}

/// The mathematical value of a [`Bridge`].
pub struct BridgeView {
    pub registry: Map<Seq<char>, Handler>,
    pub lifecycle: LifecycleState,
}

impl View for Bridge {
    type V = BridgeView;

    closed spec fn view(&self) -> BridgeView {
        BridgeView { registry: self.registry@, lifecycle: self.lifecycle }
    }
}

impl BridgeView {
    /// What carrying out a checked call does to a running bridge.
    ///
    /// Logging is acknowledged and leaves one line to be written. Quitting
    /// moves the lifecycle to `Terminating` and leaves the process to be
    /// ended with a success status; the caller gets no response, because the
    /// process ends first.
    pub open spec fn perform(self, call: CallView) -> (BridgeView, OutcomeView) {
        match call {
            CallView::LogMessage { message } => (
                self,
                OutcomeView {
                    response: Some(response_for(HandlerResultView::Success(None))),
                    effect: EffectView::WriteDiagnostic(diagnostic_line(message)),
                },
            ),
            CallView::QuitApp => (
                BridgeView { registry: self.registry, lifecycle: LifecycleState::Terminating },
                OutcomeView { response: None, effect: EffectView::Exit(EXIT_SUCCESS) },
            ),
        }
    }

    /// What one invocation does to the bridge, and what comes of it.
    ///
    /// Once the lifecycle is `Terminating` nothing is serviced. Otherwise the
    /// name is resolved, then the payload is checked, and only then does the
    /// handler run.
    pub open spec fn step(self, invocation: InvocationView) -> (BridgeView, OutcomeView) {
        if self.lifecycle == LifecycleState::Terminating {
            (self, OutcomeView::not_serviced())
        } else if !self.registry.dom().contains(invocation.command_name) {
            (self, OutcomeView::rejected(BridgeErrorView::UnknownCommand))
        } else {
            match CallView::decoded(
                self.registry[invocation.command_name],
                invocation.arguments,
            ) {
                Ok(call) => self.perform(call),
                Err(error) => (self, OutcomeView::rejected(error)),
            }
        }
    }
}

impl BridgeView {
    /// The bridge after a series of invocations, dispatched one after another.
    pub open spec fn after(self, invocations: Seq<InvocationView>) -> BridgeView
        decreases invocations.len(),
    {
        if invocations.len() == 0 {
            self
        } else {
            self.after(invocations.drop_last()).step(invocations.last()).0
        }
    }

    /// The outcome of the invocation at position `i` of a series.
    pub open spec fn outcome_at(self, invocations: Seq<InvocationView>, i: int) -> OutcomeView {
        self.after(invocations.take(i)).step(invocations[i]).1
    }

    /// Whether the invocation would reach the handler that ends the
    /// application: the bridge is running and the name resolves to `QuitApp`.
    pub open spec fn quits_on(self, invocation: InvocationView) -> bool {
        &&& self.lifecycle == LifecycleState::Running
        &&& self.registry.dom().contains(invocation.command_name)
        &&& self.registry[invocation.command_name] == Handler::QuitApp
    }
}

impl Bridge {
    /// A running bridge over the given registry.
    pub fn new(registry: Registry) -> (bridge: Bridge)
        ensures
            bridge@ == (BridgeView { registry: registry@, lifecycle: LifecycleState::Running }),
    {
        Bridge { registry, lifecycle: LifecycleState::Running }
    }

    /// A running bridge over the commands of the application.
    pub fn standard() -> (bridge: Bridge)
        ensures
            bridge@ == (BridgeView {
                registry: standard_commands(),
                lifecycle: LifecycleState::Running,
            }),
    {
        Bridge::new(Registry::standard())
    }

    /// The lifecycle state.
    pub fn lifecycle(&self) -> (state: LifecycleState)
        ensures
            state == self@.lifecycle,
    {
        self.lifecycle
    }

    /// The registry that the bridge resolves names against.
    pub fn registry(&self) -> (registry: &Registry)
        ensures
            registry@ == self@.registry,
    {
        &self.registry
    }

    /// Carries out a checked call on a running bridge.
    fn perform(&mut self, call: Call) -> (outcome: Outcome)
        requires
            old(self)@.lifecycle == LifecycleState::Running,
        ensures
            (final(self)@, outcome@) == old(self)@.perform(call@),
    {
        match call {
            Call::LogMessage { message } => {
                let line = log_message(message.as_str());
                Outcome {
                    response: Some(respond(HandlerResult::Success(None))),
                    effect: Effect::WriteDiagnostic(line),
                }
            },
            Call::QuitApp => {
                let effect = quit_app(&mut self.lifecycle);
                Outcome { response: None, effect }
            },
        }
    }

    /// Dispatches one invocation.
    ///
    /// The bridge resolves the command name, checks the payload against what
    /// the handler expects, runs the handler and shapes the response. The
    /// registry is never changed, and the side effect of the invocation, if
    /// it has one, is handed to the host in the outcome.
    pub fn dispatch(&mut self, invocation: &Invocation) -> (outcome: Outcome)
        ensures
            (final(self)@, outcome@) == old(self)@.step(invocation@),
    {
        if self.lifecycle == LifecycleState::Terminating {
            return Outcome { response: None, effect: Effect::Nothing };
        }
        let handler = match self.registry.resolve(invocation.command_name.as_str()) {
            Ok(handler) => handler,
            Err(error) => {
                return Outcome { response: Some(Response::Failure(error)), effect: Effect::Nothing };
            },
        };
        match Call::decode(handler, &invocation.arguments) {
            Ok(call) => self.perform(call),
            Err(error) => Outcome {
                response: Some(Response::Failure(error)),
                effect: Effect::Nothing,
            },
        }
    }
}

} // verus!
