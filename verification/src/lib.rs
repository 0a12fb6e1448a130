//! A small in-process engine that runs named steps in order or in parallel
//! groups, injects their dependencies by type, and collects their outcomes.
//!
//! Steps are registered on an [`ImperativeStepBuilder`]. Their arguments are
//! resolved against a [`TypeMap`] when they are registered. `execute` starts
//! an [`Execution`], which tells its driver which step to run next and
//! decides from each outcome whether the run goes on.
use vstd::prelude::*;

pub mod builder;
pub mod callable;
pub mod dependencies;
pub mod engine;
pub mod error;
pub mod outcome;
pub mod outputs;
pub mod prelude;
pub mod resolution;
pub mod step;

pub use builder::new as new_builder;
pub use builder::ImperativeStepBuilder;
pub use callable::Callable;
pub use dependencies::Dep;
pub use dependencies::FromTypeMap;
pub use dependencies::TypeMap;
pub use engine::Action;
pub use engine::Execution;
pub use engine::Run;
pub use error::BuildError;
pub use error::Error as BuilderError;
pub use outcome::IntoStepOutcome;
pub use outputs::Outputs;
pub use step::Group;
pub use step::GroupBuilder;
pub use step::Step;

verus! {

/// A resource which can be passed into a step.
pub struct Resource<T>(pub T);

} // verus!
