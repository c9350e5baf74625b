//! Failures that the bridge reports.

use vstd::prelude::*;

verus! {

/// Why an invocation did not produce a success value.
///
/// Every variant is reported back to the caller; none of them stops the
/// backend.
#[derive(Debug, PartialEq, Eq)]
pub enum BridgeError {
    /// The command name is not in the registry.
    UnknownCommand,
    /// The payload does not have the shape that the handler expects.
    InvalidArguments,
    /// The handler ran and reported a failure of its own, described by the text.
    HandlerFailure(String),
}

/// The mathematical value of a [`BridgeError`].
pub enum BridgeErrorView {
    UnknownCommand,
    InvalidArguments,
    HandlerFailure(Seq<char>),
}

impl View for BridgeError {
    type V = BridgeErrorView;

    open spec fn view(&self) -> BridgeErrorView {
        match self {
            BridgeError::UnknownCommand => BridgeErrorView::UnknownCommand,
            BridgeError::InvalidArguments => BridgeErrorView::InvalidArguments,
            BridgeError::HandlerFailure(description) => BridgeErrorView::HandlerFailure(
                description@,
            ),
        }
    }
}

/// Why a command could not be added to a registry.
#[derive(Clone, Copy, Debug, PartialEq, Eq, Structural)]
pub enum RegistryError {
    /// The name is already taken by an earlier registration.
    DuplicateName,
}

} // verus!
