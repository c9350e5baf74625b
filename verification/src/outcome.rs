//! What a handler reports, what the caller is told, and what is left for the
//! host to do.

use crate::error::BridgeError;
use crate::error::BridgeErrorView;
use vstd::prelude::*;

verus! {

/// What a handler reports when it has run.
#[derive(Debug, PartialEq, Eq)]
pub enum HandlerResult {
    /// The handler succeeded. Without a value this is a bare acknowledgment.
    Success(Option<String>),
    /// The handler failed, for the reason that the text describes.
    Failure(String),
}

/// The mathematical value of a [`HandlerResult`].
pub enum HandlerResultView {
    Success(Option<Seq<char>>),
    Failure(Seq<char>),
}

/// The characters of an optional string.
pub open spec fn optional_text(value: Option<String>) -> Option<Seq<char>> {
    match value {
        Some(text) => Some(text@),
        None => None,
    }
}

impl View for HandlerResult {
    type V = HandlerResultView;

    open spec fn view(&self) -> HandlerResultView {
        match self {
            HandlerResult::Success(value) => HandlerResultView::Success(optional_text(*value)),
            HandlerResult::Failure(description) => HandlerResultView::Failure(description@),
        }
    }
}

/// What the caller is told about one invocation.
#[derive(Debug, PartialEq, Eq)]
pub enum Response {
    /// The command was carried out. Without a value this is a bare
    /// acknowledgment.
    Success(Option<String>),
    /// The command was not carried out, or its handler failed.
    Failure(BridgeError),
}

/// The mathematical value of a [`Response`].
pub enum ResponseView {
    Success(Option<Seq<char>>),
    Failure(BridgeErrorView),
}

impl View for Response {
    type V = ResponseView;

    open spec fn view(&self) -> ResponseView {
        match self {
            Response::Success(value) => ResponseView::Success(optional_text(*value)),
            Response::Failure(error) => ResponseView::Failure(error@),
        }
    }
}

/// The response that a handler's result maps to: a success keeps its value,
/// a failure becomes a handler failure with the same description.
pub open spec fn response_for(result: HandlerResultView) -> ResponseView {
    match result {
        HandlerResultView::Success(value) => ResponseView::Success(value),
        HandlerResultView::Failure(description) => ResponseView::Failure(
            BridgeErrorView::HandlerFailure(description),
        ),
    }
}

/// Turns a handler's result into the response for the caller.
pub fn respond(result: HandlerResult) -> (response: Response)
    ensures
        response@ == response_for(result@),
{
    match result {
        HandlerResult::Success(value) => Response::Success(value),
        HandlerResult::Failure(description) => Response::Failure(
            BridgeError::HandlerFailure(description),
        ),
    }
}

/// The exit status of a requested shutdown.
pub const EXIT_SUCCESS: i32 = 0;

/// The one side effect that an invocation leaves for the host to perform.
#[derive(Debug, PartialEq, Eq)]
pub enum Effect {
    /// Nothing is to be done.
    Nothing,
    /// The line is to be written to the diagnostic output.
    WriteDiagnostic(String),
    /// The process is to end with the given exit status.
    Exit(i32),
}

/// The mathematical value of an [`Effect`].
pub enum EffectView {
    Nothing,
    WriteDiagnostic(Seq<char>),
    Exit(i32),
}

impl View for Effect {
    type V = EffectView;

    open spec fn view(&self) -> EffectView {
        match self {
            Effect::Nothing => EffectView::Nothing,
            Effect::WriteDiagnostic(line) => EffectView::WriteDiagnostic(line@),
            Effect::Exit(status) => EffectView::Exit(*status),
        }
    }
}

/// The result of dispatching one invocation.
#[derive(Debug, PartialEq, Eq)]
pub struct Outcome {
    /// The response for the caller, if the caller gets one.
    pub response: Option<Response>,
    /// The side effect that the host has to perform, exactly once.
    pub effect: Effect,
}

/// The mathematical value of an [`Outcome`].
pub struct OutcomeView {
    pub response: Option<ResponseView>,
    pub effect: EffectView,
}

impl View for Outcome {
    type V = OutcomeView;

    open spec fn view(&self) -> OutcomeView {
        OutcomeView {
            response: match self.response {
                Some(response) => Some(response@),
                None => None,
            },
            effect: self.effect@,
        }
    }
}

impl OutcomeView {
    /// The outcome of an invocation that was not serviced: no response and no
    /// side effect.
    pub open spec fn not_serviced() -> OutcomeView {
        OutcomeView { response: None, effect: EffectView::Nothing }
    }

    /// The outcome of an invocation that was turned down: the error goes back
    /// to the caller and nothing else happens.
    pub open spec fn rejected(error: BridgeErrorView) -> OutcomeView {
        OutcomeView { response: Some(ResponseView::Failure(error)), effect: EffectView::Nothing }
    }
}

} // verus!
