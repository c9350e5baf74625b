//! The application's lifecycle.

use vstd::prelude::*;

verus! {

/// The process-wide lifecycle state.
///
/// The only transition is from `Running` to `Terminating`, and nothing leads
/// back.
#[derive(Clone, Copy, Debug, PartialEq, Eq, Structural)]
pub enum LifecycleState {
    /// Invocations are serviced.
    Running,
    /// Shutdown has been requested; nothing is serviced any more.
    Terminating,
}

} // verus!
