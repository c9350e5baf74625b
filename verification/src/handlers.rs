//! The handlers behind the two commands.
//!
//! A handler decides; the host performs. `log_message` hands back the line
//! that is to be written, `quit_app` the exit status with which the process
//! is to end.

use crate::lifecycle::LifecycleState;
use crate::outcome::Effect;
use crate::outcome::EffectView;
use crate::outcome::EXIT_SUCCESS;
use vstd::prelude::*;
use vstd::string::StringExecFns;

verus! {

/// The line that stands in the diagnostic output for a message from the
/// front-end.
pub open spec fn diagnostic_line(message: Seq<char>) -> Seq<char> {
    "From frontend: "@ + message
}

/// The handler of `log_message`: the line to write for `message`.
///
/// The message is taken as it is, whatever its content or length.
pub fn log_message(message: &str) -> (line: String)
    ensures
        line@ == diagnostic_line(message@),
{
    let mut line = String::from_str("From frontend: ");
    line.append(message);
    line
}

/// The handler of `quit_app`: moves the lifecycle to `Terminating`.
///
/// The first call asks the host to end the process with a success status. A
/// later call finds the shutdown under way and asks for nothing more.
pub fn quit_app(lifecycle: &mut LifecycleState) -> (effect: Effect)
    ensures
        *final(lifecycle) == LifecycleState::Terminating,
        *old(lifecycle) == LifecycleState::Running ==> effect@ == EffectView::Exit(EXIT_SUCCESS),
        *old(lifecycle) == LifecycleState::Terminating ==> effect@ == EffectView::Nothing,
{
    match *lifecycle {
        LifecycleState::Running => {
            *lifecycle = LifecycleState::Terminating;
            Effect::Exit(EXIT_SUCCESS)
        },
        LifecycleState::Terminating => Effect::Nothing,
    }
}

} // verus!
