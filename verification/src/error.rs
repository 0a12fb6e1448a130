use std::any::TypeId;
use vstd::prelude::*;

verus! {

/// What went wrong while a runner was being built: nothing fails at once,
/// the errors are kept in order and the first one is returned by `execute`.
#[derive(Debug)]
pub enum BuildError {
    /// At least one dependency of the named step could not be resolved.
    DepResolution(String),
    /// A value of this type was bound already.
    AddDep(TypeId),
}

/// A [`BuildError`] with the step's name as a sequence of characters.
pub enum BuildErrorView {
    DepResolution(Seq<char>),
    AddDep(TypeId),
}

impl View for BuildError {
    type V = BuildErrorView;

    open spec fn view(&self) -> BuildErrorView {
        match *self {
            BuildError::DepResolution(name) => BuildErrorView::DepResolution(name@),
            BuildError::AddDep(key) => BuildErrorView::AddDep(key),
        }
    }
}

/// Why an execution returned no results. `C` is the cause that a failed
/// outcome carries.
#[derive(Debug)]
pub enum Error<C> {
    /// At least one dependency of the named step could not be resolved.
    DepResolution(String),
    /// A value of this type was bound already.
    AddDep(TypeId),
    /// The named step failed, with this cause.
    Step(String, C),
    /// The named step failed and gave no cause.
    UnknownStep(String),
    /// The named group failed, with this cause.
    Group(String, C),
}

/// An [`Error`] with its names as sequences of characters.
pub enum ErrorView<C> {
    DepResolution(Seq<char>),
    AddDep(TypeId),
    Step(Seq<char>, C),
    UnknownStep(Seq<char>),
    Group(Seq<char>, C),
}

impl<C> View for Error<C> {
    type V = ErrorView<C>;

    open spec fn view(&self) -> ErrorView<C> {
        match *self {
            Error::DepResolution(name) => ErrorView::DepResolution(name@),
            Error::AddDep(key) => ErrorView::AddDep(key),
            Error::Step(name, cause) => ErrorView::Step(name@, cause),
            Error::UnknownStep(name) => ErrorView::UnknownStep(name@),
            Error::Group(name, cause) => ErrorView::Group(name@, cause),
        }
    }
}

/// The error of an execution that a build-time error stops.
pub open spec fn raised<C>(e: BuildErrorView) -> ErrorView<C> {
    match e {
        BuildErrorView::DepResolution(name) => ErrorView::DepResolution(name),
        BuildErrorView::AddDep(key) => ErrorView::AddDep(key),
    }
}

impl<C> Error<C> {
    /// Turns a build-time error into the error that `execute` returns.
    pub fn from_build(e: BuildError) -> (raised: Error<C>)
        ensures
            raised@ == self::raised::<C>(e@),
    {
        match e {
            BuildError::DepResolution(name) => Error::DepResolution(name),
            BuildError::AddDep(key) => Error::AddDep(key),
        }
    }
}

} // verus!
