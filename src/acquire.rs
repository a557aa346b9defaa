use vstd::prelude::*;
use crate::error::{BuildError, BuildErrorView};

verus! {

/// What acquiring a repository into a directory does.
#[derive(Clone, Copy, PartialEq, Eq, Structural, Debug)]
pub enum AcquireStep {
    /// The directory is absent: check the repository out into it.
    Clone,
    /// The directory exists and an update was asked for: update it in place.
    Pull,
    /// The directory exists and no update was asked for: use it as it is.
    Reuse,
}

/// Clone-or-update of a source tree into a target directory.
pub trait CloneRepo {
    fn clone_or_pull(
        &self,
        repo_url: &str,
        branch: Option<&str>,
        target_dir: &str,
        should_pull: bool,
    ) -> Result<String, BuildError>;
}

/// The version-control tool's acquisition, as decided here and carried out
/// by the caller.
pub struct DefaultClone;

pub open spec fn acquire_step(exists: bool, should_pull: bool) -> AcquireStep {
    if !exists {
        AcquireStep::Clone
    } else if should_pull {
        AcquireStep::Pull
    } else {
        AcquireStep::Reuse
    }
}

pub open spec fn clone_failed_message() -> Seq<char> {
    "Failed to clone repository"@
}

pub open spec fn pull_failed_message() -> Seq<char> {
    "Failed to pull the repository"@
}

/// The outcome of an acquisition step, given how the version-control tool
/// went: `Ok(true)` it succeeded, `Ok(false)` it exited unsuccessfully,
/// `Err(reason)` it could not be started.
pub open spec fn acquire_result(step: AcquireStep, target_dir: Seq<char>, tool: Result<bool, Seq<char>>) -> Result<
    Seq<char>,
    BuildErrorView,
> {
    match step {
        AcquireStep::Reuse => Ok(target_dir),
        AcquireStep::Clone => match tool {
            Ok(true) => Ok(target_dir),
            Ok(false) => Err(BuildErrorView::CloneFailed(clone_failed_message())),
            Err(reason) => Err(BuildErrorView::CloneFailed(reason)),
        },
        AcquireStep::Pull => match tool {
            Ok(true) => Ok(target_dir),
            Ok(false) => Err(BuildErrorView::UpdateFailed(pull_failed_message())),
            Err(reason) => Err(BuildErrorView::UpdateFailed(reason)),
        },
    }
}

pub open spec fn tool_view(t: Result<bool, String>) -> Result<bool, Seq<char>> {
    match t {
        Ok(b) => Ok(b),
        Err(s) => Err(s@),
    }
}

pub open spec fn dir_result_view(r: Result<String, BuildError>) -> Result<Seq<char>, BuildErrorView> {
    match r {
        Ok(s) => Ok(s@),
        Err(e) => Err(e@),
    }
}

impl DefaultClone {
    /// Which step acquiring into a directory takes.
    pub fn step(&self, exists: bool, should_pull: bool) -> (r: AcquireStep)
        ensures
            r == acquire_step(exists, should_pull),
    {
        if !exists {
            AcquireStep::Clone
        } else if should_pull {
            AcquireStep::Pull
        } else {
            AcquireStep::Reuse
        }
    }

    /// The outcome of `step`, given how the version-control tool went; for
    /// `Reuse` the tool was not run and `tool` is not read.
    pub fn conclude(&self, step: AcquireStep, target_dir: &str, tool: Result<bool, String>) -> (r: Result<
        String,
        BuildError,
    >)
        ensures
            dir_result_view(r) == acquire_result(step, target_dir@, tool_view(tool)),
    {
        match step {
            AcquireStep::Reuse => Ok(target_dir.to_owned()),
            AcquireStep::Clone => match tool {
                Ok(true) => Ok(target_dir.to_owned()),
                Ok(false) => Err(BuildError::CloneFailed("Failed to clone repository".to_owned())),
                Err(reason) => Err(BuildError::CloneFailed(reason)),
            },
            AcquireStep::Pull => match tool {
                Ok(true) => Ok(target_dir.to_owned()),
                Ok(false) => Err(BuildError::UpdateFailed("Failed to pull the repository".to_owned())),
                Err(reason) => Err(BuildError::UpdateFailed(reason)),
            },
        }
    }
}

/// Acquiring twice into a directory that exists, without asking for an
/// update, runs the version-control tool neither time and returns the
/// directory both times, whatever the tool would have done.
pub proof fn lemma_acquire_idempotent(
    target_dir: Seq<char>,
    first: Result<bool, Seq<char>>,
    second: Result<bool, Seq<char>>,
)
    ensures
        acquire_step(true, false) == AcquireStep::Reuse,
        acquire_result(acquire_step(true, false), target_dir, first) == Ok::<
            Seq<char>,
            BuildErrorView,
        >(target_dir),
        acquire_result(acquire_step(true, false), target_dir, second) == acquire_result(
            acquire_step(true, false),
            target_dir,
            first,
        ),
{
}

} // verus!
