//! The one error of the library: the code that the platform recorded for a
//! failed call.

use vstd::prelude::*;

verus! {

/// `std::io::Error`, taken as an opaque value: the library only carries one
/// from the call that reads it to the call that asks for its code.
#[verifier::external_type_specification]
#[verifier::external_body]
pub struct ExIoError(std::io::Error);

/// `std::io::Error::last_os_error` reads the error that the platform last
/// recorded for the calling thread. Nothing is claimed of what it returns.
pub assume_specification[ std::io::Error::last_os_error ]() -> std::io::Error;

/// `std::io::Error::raw_os_error` gives the platform's code of an error, if it
/// has one. Nothing is claimed of what it returns.
pub assume_specification[ std::io::Error::raw_os_error ](error: &std::io::Error) -> Option<i32>;

/// A failure that the platform reported, by its error code.
///
/// The library makes up no categories of its own: a caller that needs to
/// tell one failure from another looks at the code.
#[derive(Clone, Copy, Debug, PartialEq, Eq, Structural)]
pub struct OsError {
    pub code: i32,
}

/// What the raw result of a system call means, where `code` is what the
/// platform recorded for a failure: a negative result is a failure with that
/// code (code 0 where the platform gave none), any other result is handed on.
pub open spec fn spec_outcome(result: i32, code: Option<i32>) -> Result<i32, OsError> {
    if result >= 0 {
        Ok(result)
    } else {
        match code {
            Some(code) => Err(OsError { code }),
            None => Err(OsError { code: 0 }),
        }
    }
}

/// Reads the raw result of a system call against the code recorded for it.
#[verifier::when_used_as_spec(spec_outcome)]
pub fn outcome(result: i32, code: Option<i32>) -> (r: Result<i32, OsError>)
    ensures
        r == spec_outcome(result, code),
{
    if result >= 0 {
        Ok(result)
    } else {
        match code {
            Some(code) => Err(OsError { code }),
            None => Err(OsError { code: 0 }),
        }
    }
}

/// Reads the raw result of the system call that the calling thread has just
/// made: a negative result is a failure with the code that the platform
/// recorded for it, any other result is handed on.
///
/// Call it before anything else that may record an error.
pub fn ok_or_get_error(result: i32) -> (r: Result<i32, OsError>)
    ensures
        result >= 0 ==> r == Ok::<i32, OsError>(result),
        result < 0 ==> r is Err,
        exists|code: Option<i32>| r == outcome(result, code),
{
    if result < 0 {
        let error = std::io::Error::last_os_error();
        let code = error.raw_os_error();
        outcome(result, code)
    } else {
        outcome(result, None)
    }
}

/// Reads the raw result of a system call that hands nothing back on success:
/// a control operation or a close. A negative result is a failure with the
/// code that the platform recorded for it.
///
/// Call it before anything else that may record an error.
pub fn acknowledge(result: i32) -> (r: Result<(), OsError>)
    ensures
        result >= 0 ==> r == Ok::<(), OsError>(()),
        result < 0 ==> r is Err,
{
    match ok_or_get_error(result) {
        Ok(_) => Ok(()),
        Err(error) => Err(error),
    }
}

} // verus!
