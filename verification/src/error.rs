//! Errors of git2 as plain values, and the errors that callers of a network
//! operation see.

use vstd::prelude::*;

verus! {

/// An error that git2 reports.
#[verifier::external_type_specification]
#[verifier::external_body]
pub struct ExGitError(git2::Error);

/// The codes of a [`git2::Error`] that a decision depends on. `Other` stands for
/// `GenericError` and for every code without a variant here.
#[derive(Debug, Clone, Copy, PartialEq, Eq, Structural)]
pub enum GitCode {
    Auth,
    NotFastForward,
    Other,
}

/// The classes of a [`git2::Error`] that a refusal is filed under. `Other` stands
/// for `None` and for every class without a variant here.
#[derive(Debug, Clone, Copy, PartialEq, Eq, Structural)]
pub enum GitClass {
    Callback,
    Http,
    Ssh,
    Other,
}

/// The code that `git2::Error::code` reads out of an error.
pub uninterp spec fn error_code(error: git2::Error) -> GitCode;

/// The class that `git2::Error::class` reads out of an error.
pub uninterp spec fn error_class(error: git2::Error) -> GitClass;

/// The text that `git2::Error::message` reads out of an error.
pub uninterp spec fn error_message(error: git2::Error) -> Seq<char>;

/// Calls `git2::Error::new`. Trusted: the code, the class and the message that
/// `code`, `class` and `message` read out of the new error are the ones it was
/// made with. `Other` makes an error with the code `GenericError`, respectively
/// the class `None`.
#[verifier::external_body]
pub(crate) fn new_error(code: GitCode, class: GitClass, message: &str) -> (error: git2::Error)
    ensures
        error_code(error) == code,
        error_class(error) == class,
        error_message(error) == message@,
{
    let code = match code {
        GitCode::Auth => git2::ErrorCode::Auth,
        GitCode::NotFastForward => git2::ErrorCode::NotFastForward,
        GitCode::Other => git2::ErrorCode::GenericError,
    };
    let class = match class {
        GitClass::Callback => git2::ErrorClass::Callback,
        GitClass::Http => git2::ErrorClass::Http,
        GitClass::Ssh => git2::ErrorClass::Ssh,
        GitClass::Other => git2::ErrorClass::None,
    };
    git2::Error::new(code, class, message)
}

/// Calls `git2::Error::code`. Trusted: it reads the code out of the error.
#[verifier::external_body]
fn read_code(error: &git2::Error) -> (code: GitCode)
    ensures
        code == error_code(*error),
{
    match error.code() {
        git2::ErrorCode::Auth => GitCode::Auth,
        git2::ErrorCode::NotFastForward => GitCode::NotFastForward,
        _ => GitCode::Other,
    }
}

/// `git2::Error::message`. Trusted: it reads the message out of the error.
pub assume_specification[ git2::Error::message ](error: &git2::Error) -> (message: &str)
    ensures
        message@ == error_message(*error),
;

/// What an operation of git2 failed with, as far as a decision depends on it.
#[derive(Debug)]
pub struct GitFailure {
    pub code: GitCode,
    pub message: String,
}

impl GitFailure {
    /// Reads a failure out of an error of git2.
    pub fn read(error: &git2::Error) -> (failure: GitFailure)
        ensures
            failure.code == error_code(*error),
            failure.message@ == error_message(*error),
    {
        GitFailure { code: read_code(error), message: error.message().to_owned() }
    }
}

/// An error as callers of a network operation see it.
#[derive(Debug)]
pub enum AppError {
    /// The host refused to let us in, or we had nothing to be let in with. It
    /// needs the user's attention; to try again blindly is no use.
    Auth(String),
    /// Something that the operation needs is not there.
    NotFound(String),
    /// Anything else that git2 reported.
    Git(String),
}

/// The result of a network operation.
pub type AppResult<T> = Result<T, AppError>;

/// An [`AppError`] as a mathematical value.
pub enum Fault {
    Auth(Seq<char>),
    NotFound(Seq<char>),
    Git(Seq<char>),
}

impl View for AppError {
    type V = Fault;

    open spec fn view(&self) -> Fault {
        match self {
            AppError::Auth(message) => Fault::Auth(message@),
            AppError::NotFound(message) => Fault::NotFound(message@),
            AppError::Git(message) => Fault::Git(message@),
        }
    }
}

/// What callers see of a failure with this code and this message.
pub open spec fn fault_of(code: GitCode, message: Seq<char>) -> Fault {
    if code == GitCode::Auth {
        Fault::Auth(message)
    } else {
        Fault::Git(message)
    }
}

impl AppError {
    /// Something is missing.
    pub fn not_found(message: &str) -> (error: AppError)
        ensures
            error@ == Fault::NotFound(message@),
            error matches AppError::NotFound(text) && text@ == message@,
    {
        AppError::NotFound(message.to_owned())
    }

    /// The repository has no remote to back up to.
    pub fn no_backup_remote() -> (error: AppError)
        ensures
            error@ == Fault::NotFound("no backup remote is configured for this graph"@),
            error matches AppError::NotFound(text) && text@
                == "no backup remote is configured for this graph"@,
    {
        AppError::not_found("no backup remote is configured for this graph")
    }

    /// What callers see of a failure.
    pub fn from_failure(failure: GitFailure) -> (error: AppError)
        ensures
            error@ == fault_of(failure.code, failure.message@),
            match error {
                AppError::Auth(message) => failure.code == GitCode::Auth && message@
                    == failure.message@,
                AppError::Git(message) => failure.code != GitCode::Auth && message@
                    == failure.message@,
                AppError::NotFound(_) => false,
            },
    {
        match failure.code {
            GitCode::Auth => AppError::Auth(failure.message),
            GitCode::NotFastForward | GitCode::Other => AppError::Git(failure.message),
        }
    }

    /// What callers see of an error of git2.
    pub fn from_git(error: &git2::Error) -> (app_error: AppError)
        ensures
            app_error@ == fault_of(error_code(*error), error_message(*error)),
            match app_error {
                AppError::Auth(message) => error_code(*error) == GitCode::Auth && message@
                    == error_message(*error),
                AppError::Git(message) => error_code(*error) != GitCode::Auth && message@
                    == error_message(*error),
                AppError::NotFound(_) => false,
            },
    {
        AppError::from_failure(GitFailure::read(error))
    }
}

/// Callers see an authentication error exactly if the failure is one, and always
/// see the failure's own message.
pub proof fn faults_keep_code_and_message(code: GitCode, message: Seq<char>)
    ensures
        code == GitCode::Auth <==> fault_of(code, message) == Fault::Auth(message),
        code != GitCode::Auth <==> fault_of(code, message) == Fault::Git(message),
{
}

/// The mathematical value of an error has its kind and its message.
pub proof fn error_view_leaves_nothing_out(error: AppError)
    ensures
        error matches AppError::Auth(message) ==> error@ == Fault::Auth(message@),
        error matches AppError::NotFound(message) ==> error@ == Fault::NotFound(message@),
        error matches AppError::Git(message) ==> error@ == Fault::Git(message@),
{
}

} // verus!
