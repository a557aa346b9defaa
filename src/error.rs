use vstd::prelude::*;

verus! {

/// Why a requested execution, or one of its steps, did not succeed.
#[derive(Debug, PartialEq, Eq)]
pub enum BuildError {
    /// No script is registered under this name.
    UnknownScript(String),
    /// No repository descriptor is configured for this script.
    ConfigurationMissing(String),
    /// A fresh checkout failed; the reason given.
    CloneFailed(String),
    /// Updating an existing checkout failed; the reason given.
    UpdateFailed(String),
    /// A command exited unsuccessfully; its standard error.
    CommandFailed(String),
    /// The script depends, directly or not, on itself.
    CyclicDependency(String),
}

/// The abstract value of a `BuildError`.
pub enum BuildErrorView {
    UnknownScript(Seq<char>),
    ConfigurationMissing(Seq<char>),
    CloneFailed(Seq<char>),
    UpdateFailed(Seq<char>),
    CommandFailed(Seq<char>),
    CyclicDependency(Seq<char>),
}

impl View for BuildError {
    type V = BuildErrorView;

    open spec fn view(&self) -> BuildErrorView {
        match self {
            BuildError::UnknownScript(s) => BuildErrorView::UnknownScript(s@),
            BuildError::ConfigurationMissing(s) => BuildErrorView::ConfigurationMissing(s@),
            BuildError::CloneFailed(s) => BuildErrorView::CloneFailed(s@),
            BuildError::UpdateFailed(s) => BuildErrorView::UpdateFailed(s@),
            BuildError::CommandFailed(s) => BuildErrorView::CommandFailed(s@),
            BuildError::CyclicDependency(s) => BuildErrorView::CyclicDependency(s@),
        }
    }
}

/// The abstract value of an optional error.
pub open spec fn opt_error_view(e: Option<BuildError>) -> Option<BuildErrorView> {
    match e {
        Some(x) => Some(x@),
        None => None,
    }
}

/// The abstract value of an outcome.
pub open spec fn outcome_view(r: Result<(), BuildError>) -> Result<(), BuildErrorView> {
    match r {
        Ok(()) => Ok(()),
        Err(x) => Err(x@),
    }
}

/// The text shown for an error: a fixed label, then its detail.
pub open spec fn error_message(e: BuildErrorView) -> Seq<char> {
    match e {
        BuildErrorView::UnknownScript(s) => "Unknown script: "@ + s,
        BuildErrorView::ConfigurationMissing(s) => "Script configuration not found: "@ + s,
        BuildErrorView::CloneFailed(s) => s,
        BuildErrorView::UpdateFailed(s) => s,
        BuildErrorView::CommandFailed(s) => s,
        BuildErrorView::CyclicDependency(s) => "Cyclic dependency: "@ + s,
    }
}

fn labelled(label: &str, detail: &String) -> (r: String)
    ensures
        r@ == label@ + detail@,
{
    let mut r = label.to_owned();
    r.append(detail.as_str());
    r
}

impl BuildError {
    /// The text shown for this error.
    pub fn message(&self) -> (r: String)
        ensures
            r@ == error_message(self@),
    {
        match self {
            BuildError::UnknownScript(s) => labelled("Unknown script: ", s),
            BuildError::ConfigurationMissing(s) => labelled("Script configuration not found: ", s),
            BuildError::CloneFailed(s) => s.clone(),
            BuildError::UpdateFailed(s) => s.clone(),
            BuildError::CommandFailed(s) => s.clone(),
            BuildError::CyclicDependency(s) => labelled("Cyclic dependency: ", s),
        }
    }

    /// A copy of this error.
    pub fn duplicate(&self) -> (r: BuildError)
        ensures
            r@ == self@,
    {
        match self {
            BuildError::UnknownScript(s) => BuildError::UnknownScript(s.clone()),
            BuildError::ConfigurationMissing(s) => BuildError::ConfigurationMissing(s.clone()),
            BuildError::CloneFailed(s) => BuildError::CloneFailed(s.clone()),
            BuildError::UpdateFailed(s) => BuildError::UpdateFailed(s.clone()),
            BuildError::CommandFailed(s) => BuildError::CommandFailed(s.clone()),
            BuildError::CyclicDependency(s) => BuildError::CyclicDependency(s.clone()),
        }
    }
}

} // verus!
