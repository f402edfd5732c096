//! Error values carrying an exit code, following the conventional sysexits
//! classification: each fatal condition maps to one distinct code.

use vstd::prelude::*;

verus! {

/// Conventional success code.
pub const EXIT_OK: i32 = 0;

/// Command line usage error (unknown target, missing argument).
pub const EXIT_USAGE: i32 = 64;

/// Malformed input data (an environment file that does not parse).
pub const EXIT_DATAERR: i32 = 65;

/// An input file is absent (no configuration file found).
pub const EXIT_NOINPUT: i32 = 66;

/// Internal software error (spawn failure, watcher construction failure).
pub const EXIT_SOFTWARE: i32 = 70;

/// Operating system error (wait or kill failure, no working directory).
pub const EXIT_OSERR: i32 = 71;

/// An input file exists but cannot be read.
pub const EXIT_IOERR: i32 = 74;

/// A configuration file exists but is malformed.
pub const EXIT_CONFIG: i32 = 78;

/// An exit status is a success exactly when it is zero.
pub open spec fn is_success_code(code: i32) -> bool {
    code == 0
}

/// Decides whether an exit status counts as success.
pub fn exit_code_is_success(code: i32) -> (r: bool)
    ensures
        r == is_success_code(code),
{
    code == 0
}

/// A fatal condition: a one-line message and the exit code to terminate with.
#[derive(Debug)]
pub struct AppError {
    pub msg: String,
    pub exitcode: i32,
}

impl AppError {
    /// A configuration file was found but does not parse.
    pub fn parse_error(msg: String) -> (r: AppError)
        ensures
            r.exitcode == EXIT_CONFIG,
            r.msg == msg,
    {
        AppError { msg, exitcode: EXIT_CONFIG }
    }

    /// A configuration file was found but cannot be read.
    pub fn unreadable_error(msg: String) -> (r: AppError)
        ensures
            r.exitcode == EXIT_IOERR,
            r.msg == msg,
    {
        AppError { msg, exitcode: EXIT_IOERR }
    }

    /// No configuration file could be located.
    pub fn not_found_error(msg: String) -> (r: AppError)
        ensures
            r.exitcode == EXIT_NOINPUT,
            r.msg == msg,
    {
        AppError { msg, exitcode: EXIT_NOINPUT }
    }

    /// The invocation itself is wrong (unknown target, missing argument).
    pub fn usage_error(msg: String) -> (r: AppError)
        ensures
            r.exitcode == EXIT_USAGE,
            r.msg == msg,
    {
        AppError { msg, exitcode: EXIT_USAGE }
    }

    /// Input data is malformed (an environment file that does not parse).
    pub fn data_error(msg: String) -> (r: AppError)
        ensures
            r.exitcode == EXIT_DATAERR,
            r.msg == msg,
    {
        AppError { msg, exitcode: EXIT_DATAERR }
    }

    /// An internal step failed (a process could not be spawned, the watcher
    /// could not be constructed).
    pub fn software_error(msg: String) -> (r: AppError)
        ensures
            r.exitcode == EXIT_SOFTWARE,
            r.msg == msg,
    {
        AppError { msg, exitcode: EXIT_SOFTWARE }
    }

    /// The operating system refused a step (wait or kill failure).
    pub fn os_error(msg: String) -> (r: AppError)
        ensures
            r.exitcode == EXIT_OSERR,
            r.msg == msg,
    {
        AppError { msg, exitcode: EXIT_OSERR }
    }

    /// A success-coded notice: skipping a target because its guard conditions
    /// do not hold is reported, but it is not a failure.
    pub fn skip_notice(msg: String) -> (r: AppError)
        ensures
            r.exitcode == EXIT_OK,
            r.msg == msg,
    {
        AppError { msg, exitcode: EXIT_OK }
    }
}

/// The result type of every step that can end the run with an exit code.
pub type AppErrorResult<T> = Result<T, AppError>;

} // verus!
