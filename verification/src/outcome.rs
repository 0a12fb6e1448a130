use vstd::prelude::*;

verus! {

/// The cause type of outcomes that never carry one: no classification in
/// this crate ever returns a value of it.
#[derive(Debug)]
pub struct NoCause;

/// Classifies the value that a step produced: it succeeded, or it failed,
/// and a failure may carry an underlying cause.
///
/// A step whose outcome is not a success halts a group that does not
/// tolerate failure. Not every failure has a cause.
pub trait IntoStepOutcome: Sized {
    /// What a failed outcome carries as its cause.
    type Cause;

    /// Whether this outcome counts as a success. Every implementation in
    /// verified code states it; the default leaves it open.
    open spec fn succeeded(&self) -> bool {
        arbitrary()
    }

    /// The cause that this outcome carries, if any. Every implementation in
    /// verified code states it; the default leaves it open.
    open spec fn cause(self) -> Option<Self::Cause> {
        arbitrary()
    }

    /// Returns the cause of the failure, if there is one.
    fn error(self) -> (cause: Option<Self::Cause>)
        ensures
            cause == self.cause(),
    ;

    /// Returns whether this step succeeded.
    fn success(&self) -> (ok: bool)
        ensures
            ok == self.succeeded(),
    ;
}

/// A boolean succeeds exactly when it is `true`; `false` carries no cause.
impl IntoStepOutcome for bool {
    type Cause = NoCause;

    open spec fn succeeded(&self) -> bool {
        *self
    }

    open spec fn cause(self) -> Option<NoCause> {
        None
    }

    fn error(self) -> (cause: Option<NoCause>) {
        None
    }

    fn success(&self) -> (ok: bool) {
        *self
    }
}

/// A `Result` succeeds exactly when it is `Ok`; an `Err` carries its error
/// as the cause.
impl<T, E: IntoStepOutcome> IntoStepOutcome for Result<T, E> {
    type Cause = E;

    open spec fn succeeded(&self) -> bool {
        self is Ok
    }

    open spec fn cause(self) -> Option<E> {
        match self {
            Ok(_) => None,
            Err(e) => Some(e),
        }
    }

    fn error(self) -> (cause: Option<E>) {
        match self {
            Ok(_) => None,
            Err(e) => Some(e),
        }
    }

    fn success(&self) -> (ok: bool) {
        self.is_ok()
    }
}

/// The unit value always succeeds.
impl IntoStepOutcome for () {
    type Cause = NoCause;

    open spec fn succeeded(&self) -> bool {
        true
    }

    open spec fn cause(self) -> Option<NoCause> {
        None
    }

    fn error(self) -> (cause: Option<NoCause>) {
        None
    }

    fn success(&self) -> (ok: bool) {
        true
    }
}

/// A `usize` always succeeds.
impl IntoStepOutcome for usize {
    type Cause = NoCause;

    open spec fn succeeded(&self) -> bool {
        true
    }

    open spec fn cause(self) -> Option<NoCause> {
        None
    }

    fn error(self) -> (cause: Option<NoCause>) {
        None
    }

    fn success(&self) -> (ok: bool) {
        true
    }
}

/// An `isize` always succeeds.
impl IntoStepOutcome for isize {
    type Cause = NoCause;

    open spec fn succeeded(&self) -> bool {
        true
    }

    open spec fn cause(self) -> Option<NoCause> {
        None
    }

    fn error(self) -> (cause: Option<NoCause>) {
        None
    }

    fn success(&self) -> (ok: bool) {
        true
    }
}

/// A `char` always succeeds.
impl IntoStepOutcome for char {
    type Cause = NoCause;

    open spec fn succeeded(&self) -> bool {
        true
    }

    open spec fn cause(self) -> Option<NoCause> {
        None
    }

    fn error(self) -> (cause: Option<NoCause>) {
        None
    }

    fn success(&self) -> (ok: bool) {
        true
    }
}

/// A string slice always succeeds.
impl IntoStepOutcome for &str {
    type Cause = NoCause;

    open spec fn succeeded(&self) -> bool {
        true
    }

    open spec fn cause(self) -> Option<NoCause> {
        None
    }

    fn error(self) -> (cause: Option<NoCause>) {
        None
    }

    fn success(&self) -> (ok: bool) {
        true
    }
}

/// A `String` always succeeds.
impl IntoStepOutcome for String {
    type Cause = NoCause;

    open spec fn succeeded(&self) -> bool {
        true
    }

    open spec fn cause(self) -> Option<NoCause> {
        None
    }

    fn error(self) -> (cause: Option<NoCause>) {
        None
    }

    fn success(&self) -> (ok: bool) {
        true
    }
}

/// A `u8` always succeeds.
impl IntoStepOutcome for u8 {
    type Cause = NoCause;

    open spec fn succeeded(&self) -> bool {
        true
    }

    open spec fn cause(self) -> Option<NoCause> {
        None
    }

    fn error(self) -> (cause: Option<NoCause>) {
        None
    }

    fn success(&self) -> (ok: bool) {
        true
    }
}

/// An `i8` always succeeds.
impl IntoStepOutcome for i8 {
    type Cause = NoCause;

    open spec fn succeeded(&self) -> bool {
        true
    }

    open spec fn cause(self) -> Option<NoCause> {
        None
    }

    fn error(self) -> (cause: Option<NoCause>) {
        None
    }

    fn success(&self) -> (ok: bool) {
        true
    }
}

/// An `i16` always succeeds.
impl IntoStepOutcome for i16 {
    type Cause = NoCause;

    open spec fn succeeded(&self) -> bool {
        true
    }

    open spec fn cause(self) -> Option<NoCause> {
        None
    }

    fn error(self) -> (cause: Option<NoCause>) {
        None
    }

    fn success(&self) -> (ok: bool) {
        true
    }
}

/// A `u16` always succeeds.
impl IntoStepOutcome for u16 {
    type Cause = NoCause;

    open spec fn succeeded(&self) -> bool {
        true
    }

    open spec fn cause(self) -> Option<NoCause> {
        None
    }

    fn error(self) -> (cause: Option<NoCause>) {
        None
    }

    fn success(&self) -> (ok: bool) {
        true
    }
}

/// An `i32` always succeeds.
impl IntoStepOutcome for i32 {
    type Cause = NoCause;

    open spec fn succeeded(&self) -> bool {
        true
    }

    open spec fn cause(self) -> Option<NoCause> {
        None
    }

    fn error(self) -> (cause: Option<NoCause>) {
        None
    }

    fn success(&self) -> (ok: bool) {
        true
    }
}

/// A `u32` always succeeds.
impl IntoStepOutcome for u32 {
    type Cause = NoCause;

    open spec fn succeeded(&self) -> bool {
        true
    }

    open spec fn cause(self) -> Option<NoCause> {
        None
    }

    fn error(self) -> (cause: Option<NoCause>) {
        None
    }

    fn success(&self) -> (ok: bool) {
        true
    }
}

/// An `i64` always succeeds.
impl IntoStepOutcome for i64 {
    type Cause = NoCause;

    open spec fn succeeded(&self) -> bool {
        true
    }

    open spec fn cause(self) -> Option<NoCause> {
        None
    }

    fn error(self) -> (cause: Option<NoCause>) {
        None
    }

    fn success(&self) -> (ok: bool) {
        true
    }
}

/// A `u64` always succeeds.
impl IntoStepOutcome for u64 {
    type Cause = NoCause;

    open spec fn succeeded(&self) -> bool {
        true
    }

    open spec fn cause(self) -> Option<NoCause> {
        None
    }

    fn error(self) -> (cause: Option<NoCause>) {
        None
    }

    fn success(&self) -> (ok: bool) {
        true
    }
}

/// An `i128` always succeeds.
impl IntoStepOutcome for i128 {
    type Cause = NoCause;

    open spec fn succeeded(&self) -> bool {
        true
    }

    open spec fn cause(self) -> Option<NoCause> {
        None
    }

    fn error(self) -> (cause: Option<NoCause>) {
        None
    }

    fn success(&self) -> (ok: bool) {
        true
    }
}

/// A `u128` always succeeds.
impl IntoStepOutcome for u128 {
    type Cause = NoCause;

    open spec fn succeeded(&self) -> bool {
        true
    }

    open spec fn cause(self) -> Option<NoCause> {
        None
    }

    fn error(self) -> (cause: Option<NoCause>) {
        None
    }

    fn success(&self) -> (ok: bool) {
        true
    }
}

#[verifier::external_type_specification]
#[verifier::external_body]
pub struct ExIoError(std::io::Error);

/// An I/O error is always a failure, and is its own cause.
impl IntoStepOutcome for std::io::Error {
    type Cause = std::io::Error;

    open spec fn succeeded(&self) -> bool {
        false
    }

    open spec fn cause(self) -> Option<std::io::Error> {
        Some(self)
    }

    fn error(self) -> (cause: Option<std::io::Error>) {
        Some(self)
    }

    fn success(&self) -> (ok: bool) {
        false
    }
}

} // verus!
