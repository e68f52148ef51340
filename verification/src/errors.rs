//! Errors of the kernel: what went wrong, whether it may be tried again, and a
//! message.

use vstd::prelude::*;

verus! {

/// What went wrong.
#[derive(Clone, Copy, Debug, PartialEq, Eq, Structural)]
pub enum ErrorCode {
    Internal,
    Conflict,
    NotFound,
    FailedPrecondition,
    InvalidArgument,
    Unavailable,
}

/// Whether it may be tried again.
#[derive(Clone, Copy, Debug, PartialEq, Eq, Structural)]
pub enum RetryClass {
    Never,
    Safe,
}

/// An error of the kernel.
#[derive(Debug)]
pub struct KernelError {
    pub code: ErrorCode,
    pub retry: RetryClass,
    pub message: String,
}

/// The value of a [`KernelError`].
#[verifier::ext_equal]
pub struct ErrorView {
    pub code: ErrorCode,
    pub retry: RetryClass,
    pub message: Seq<char>,
}

impl View for KernelError {
    type V = ErrorView;

    open spec fn view(&self) -> ErrorView {
        ErrorView { code: self.code, retry: self.retry, message: self.message@ }
    }
}

/// A result with the value of its error.
pub open spec fn outcome<T>(r: Result<T, KernelError>) -> Result<T, ErrorView> {
    match r {
        Ok(t) => Ok(t),
        Err(e) => Err(e@),
    }
}

impl KernelError {
    /// An error.
    pub fn new(code: ErrorCode, retry: RetryClass, message: &str) -> (r: Self)
        ensures
            r@ == (ErrorView { code, retry, message: message@ }),
    {
        KernelError { code, retry, message: message.to_owned() }
    }

    /// What went wrong.
    pub fn code(&self) -> (r: ErrorCode)
        ensures
            r == self@.code,
    {
        self.code
    }

    /// Whether it may be tried again.
    pub fn retry_class(&self) -> (r: RetryClass)
        ensures
            r == self@.retry,
    {
        self.retry
    }

    /// The message.
    pub fn message(&self) -> (r: &str)
        ensures
            r@ == self@.message,
    {
        self.message.as_str()
    }
}

/// An error that is not to be tried again.
pub open spec fn never(code: ErrorCode, message: Seq<char>) -> ErrorView {
    ErrorView { code, retry: RetryClass::Never, message }
}

/// The error of a record that stands in the way of another one.
pub open spec fn conflict(message: Seq<char>) -> ErrorView {
    never(ErrorCode::Conflict, message)
}

/// The error of a record that is missing.
pub open spec fn not_found(message: Seq<char>) -> ErrorView {
    never(ErrorCode::NotFound, message)
}

/// The error of a request that the state does not allow.
pub open spec fn failed_precondition(message: Seq<char>) -> ErrorView {
    never(ErrorCode::FailedPrecondition, message)
}

/// An error that is not to be tried again.
pub fn never_error(code: ErrorCode, message: &str) -> (r: KernelError)
    ensures
        r@ == never(code, message@),
{
    KernelError::new(code, RetryClass::Never, message)
}

/// The error of a record that stands in the way of another one.
pub fn conflict_error(message: &str) -> (r: KernelError)
    ensures
        r@ == conflict(message@),
{
    never_error(ErrorCode::Conflict, message)
}

/// The error of a record that is missing.
pub fn not_found_error(message: &str) -> (r: KernelError)
    ensures
        r@ == not_found(message@),
{
    never_error(ErrorCode::NotFound, message)
}

/// The error of a request that the state does not allow.
pub fn precondition_error(message: &str) -> (r: KernelError)
    ensures
        r@ == failed_precondition(message@),
{
    never_error(ErrorCode::FailedPrecondition, message)
}

} // verus!
