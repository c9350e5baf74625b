//! Commands with their arguments in the shape that the handlers expect.

use crate::error::BridgeError;
use crate::error::BridgeErrorView;
use crate::payload::Payload;
use crate::payload::PayloadView;
use crate::registry::Handler;
use vstd::prelude::*;

verus! {

/// A command whose arguments have been checked.
#[derive(Debug, PartialEq, Eq)]
pub enum Call {
    /// Log the message.
    LogMessage { message: String },
    /// End the application.
    QuitApp,
}

/// The mathematical value of a [`Call`].
pub enum CallView {
    LogMessage { message: Seq<char> },
    QuitApp,
}

impl View for Call {
    type V = CallView;

    open spec fn view(&self) -> CallView {
        match self {
            Call::LogMessage { message } => CallView::LogMessage { message: message@ },
            Call::QuitApp => CallView::QuitApp,
        }
    }
}

impl CallView {
    /// The call that a payload amounts to for a handler.
    ///
    /// `LogMessage` takes one required argument, `message`, which must be
    /// text; further arguments are ignored. `QuitApp` takes no arguments and
    /// ignores whatever was sent.
    pub open spec fn decoded(handler: Handler, arguments: PayloadView) -> Result<
        CallView,
        BridgeErrorView,
    > {
        match handler {
            Handler::LogMessage => match arguments.text("message"@) {
                Some(message) => Ok(CallView::LogMessage { message }),
                None => Err(BridgeErrorView::InvalidArguments),
            },
            Handler::QuitApp => Ok(CallView::QuitApp),
        }
    }
}

impl Call {
    /// Reads a payload into the arguments of a handler.
    ///
    /// A payload of the wrong shape is turned down as
    /// [`BridgeError::InvalidArguments`].
    pub fn decode(handler: Handler, arguments: &Payload) -> (call: Result<Call, BridgeError>)
        ensures
            match call {
                Ok(c) => CallView::decoded(handler, arguments@) == Ok::<CallView, BridgeErrorView>(
                    c@,
                ),
                Err(e) => CallView::decoded(handler, arguments@) == Err::<
                    CallView,
                    BridgeErrorView,
                >(e@),
            },
    {
        match handler {
            Handler::LogMessage => match arguments.text("message") {
                Some(message) => Ok(Call::LogMessage { message: message.clone() }),
                None => Err(BridgeError::InvalidArguments),
            },
            Handler::QuitApp => Ok(Call::QuitApp),
        }
    }
}

} // verus!
