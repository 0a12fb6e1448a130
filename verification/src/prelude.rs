//! What most users of the crate need.
pub use crate::builder::new as new_imperative_builder;
pub use crate::builder::ImperativeStepBuilder;
pub use crate::callable::Callable;
pub use crate::dependencies::Dep;
pub use crate::outcome::IntoStepOutcome;
