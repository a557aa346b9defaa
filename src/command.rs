use vstd::prelude::*;
use crate::error::{BuildError, BuildErrorView};

verus! {

pub open spec fn command_failed_prefix() -> Seq<char> {
    "Command execution failed: "@
}

/// The outcome of a command, given how it went: `Ok(true)` it exited
/// successfully, `Ok(false)` it did not, with `stderr` its standard error,
/// `Err(reason)` it could not be started.
pub open spec fn command_result(ran: Result<bool, Seq<char>>, stderr: Seq<char>) -> Result<
    (),
    BuildErrorView,
> {
    match ran {
        Ok(true) => Ok(()),
        Ok(false) => Err(BuildErrorView::CommandFailed(command_failed_prefix() + stderr)),
        Err(reason) => Err(BuildErrorView::CommandFailed(command_failed_prefix() + reason)),
    }
}

/// Decides the outcome of a command from its exit status and standard
/// error: success is the exit status alone.
pub fn command_outcome(ran: Result<bool, String>, stderr: &str) -> (r: Result<(), BuildError>)
    ensures
        crate::error::outcome_view(r) == command_result(
            crate::acquire::tool_view(ran),
            stderr@,
        ),
{
    match ran {
        Ok(true) => Ok(()),
        Ok(false) => {
            let mut msg = "Command execution failed: ".to_owned();
            msg.append(stderr);
            Err(BuildError::CommandFailed(msg))
        },
        Err(reason) => {
            let mut msg = "Command execution failed: ".to_owned();
            msg.append(reason.as_str());
            Err(BuildError::CommandFailed(msg))
        },
    }
}

} // verus!
