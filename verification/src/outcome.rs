//! From what the operating system reports about a child process to the
//! caller's result.

use vstd::prelude::*;

verus! {

/// The exit code reported for a child that ended without one, as a process
/// killed by a signal does.
pub const NO_EXIT_CODE: i32 = -1;

/// The child process could not be started, so the request never ran. `cause`
/// is the operating system's error, as it was handed in.
#[derive(Debug, PartialEq, Eq)]
pub struct LaunchFailure<E> {
    pub cause: E,
}

/// What a request comes to: the exit code of the child, or the failure to
/// start it. A nonzero exit code is a result, not an error.
pub type ExecutionResult<E> = Result<i32, LaunchFailure<E>>;

/// The result that belongs to a report: the child's own exit code where it has
/// one, [`NO_EXIT_CODE`] where it ended without one, and the launch failure
/// with its cause where it never started.
pub open spec fn exit_result_spec<E>(status: Result<Option<i32>, E>) -> ExecutionResult<E> {
    match status {
        Ok(Some(code)) => Ok(code),
        Ok(None) => Ok(NO_EXIT_CODE),
        Err(cause) => Err(LaunchFailure { cause }),
    }
}

/// Maps the report on a child process to the result of the request.
///
/// `status` is `Err` with the operating system's error if the child could not
/// be started, `Ok(Some(code))` if it ran and exited with `code`, and
/// `Ok(None)` if it ran and ended without an exit code.
pub fn exit_result<E>(status: Result<Option<i32>, E>) -> (result: ExecutionResult<E>)
    ensures
        result == exit_result_spec(status),
{
    match status {
        Ok(Some(code)) => Ok(code),
        Ok(None) => Ok(NO_EXIT_CODE),
        Err(cause) => Err(LaunchFailure { cause }),
    }
}

} // verus!
