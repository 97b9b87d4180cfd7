//! Error categories and the library's error value.

use vstd::prelude::*;

verus! {

/// The category of a failure; each category maps to a process exit code.
#[derive(Debug, Clone, Copy, PartialEq, Eq, Structural)]
pub enum AppErrorKind {
    UnsupportedEnvironment,
    Validation,
    Privilege,
    Io,
    Verification,
    Rollback,
    Usage,
}

impl AppErrorKind {
    /// The exit code reported for a failure of this category.
    pub open spec fn exit_code_spec(self) -> i32 {
        match self {
            AppErrorKind::UnsupportedEnvironment => 2,
            AppErrorKind::Validation => 3,
            AppErrorKind::Privilege => 4,
            AppErrorKind::Io => 5,
            AppErrorKind::Verification => 6,
            AppErrorKind::Rollback => 7,
            AppErrorKind::Usage => 64,
        }
    }
}

/// A failure: its category and a human-readable message.
#[derive(Debug, Clone, PartialEq, Eq)]
pub struct AppError {
    kind: AppErrorKind,
    message: String,
}

/// The result type used throughout the library.
pub type AppResult<T> = Result<T, AppError>;

impl AppError {
    /// The category of this error.
    pub closed spec fn kind_view(&self) -> AppErrorKind {
        self.kind
    }

    /// The characters of this error's message.
    pub closed spec fn message_view(&self) -> Seq<char> {
        self.message@
    }

    /// Whether this error has category `kind` and message `message`.
    pub open spec fn is(&self, kind: AppErrorKind, message: Seq<char>) -> bool {
        self.kind_view() == kind && self.message_view() == message
    }

    pub fn new(kind: AppErrorKind, message: String) -> (e: Self)
        ensures
            e.kind_view() == kind,
            e.message_view() == message@,
    {
        Self { kind, message }
    }

    pub fn kind(&self) -> (k: AppErrorKind)
        ensures
            k == self.kind_view(),
    {
        self.kind
    }

    pub fn message(&self) -> (m: &str)
        ensures
            m@ == self.message_view(),
    {
        self.message.as_str()
    }

    pub fn exit_code(&self) -> (code: i32)
        ensures
            code == self.kind_view().exit_code_spec(),
    {
        match self.kind {
            AppErrorKind::UnsupportedEnvironment => 2,
            AppErrorKind::Validation => 3,
            AppErrorKind::Privilege => 4,
            AppErrorKind::Io => 5,
            AppErrorKind::Verification => 6,
            AppErrorKind::Rollback => 7,
            AppErrorKind::Usage => 64,
        }
    }
}

/// Builds an error from a message literal.
pub fn error_from_str(kind: AppErrorKind, message: &str) -> (e: AppError)
    ensures
        e.kind_view() == kind,
        e.message_view() == message@,
{
    AppError::new(kind, message.to_owned())
}

/// Distinct categories exit with distinct codes, and every code is
/// non-zero, so a caller can tell failures apart by exit status alone.
pub proof fn exit_codes_distinguish_kinds(a: AppErrorKind, b: AppErrorKind)
    ensures
        a.exit_code_spec() != 0,
        a.exit_code_spec() == b.exit_code_spec() <==> a == b,
{
}


/// Whether `r` is the outcome `spec` describes: the same value, or a
/// validation error with the described message.
pub open spec fn validation_outcome<T>(r: Result<T, AppError>, spec: Result<T, Seq<char>>) -> bool {
    match spec {
        Ok(v) => r is Ok && r->Ok_0 == v,
        Err(m) => r is Err && r->Err_0.is(AppErrorKind::Validation, m),
    }
}

}
