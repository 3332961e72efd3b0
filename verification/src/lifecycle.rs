//! The life of an instance: from the call that creates it to the call that
//! closes it.

use vstd::prelude::*;
use crate::error::{ok_or_get_error, OsError};

verus! {

/// The flag of the create call that closes the instance when the process
/// replaces its image. The number is that of x86-64 and of most other Linux
/// targets; a few give the flag another bit.
pub const EPOLL_CLOEXEC: i32 = 0x8_0000;

/// A live instance: one readiness table held by the kernel.
///
/// A handle cannot be copied, and closing consumes it, so no call can be
/// prepared for an instance that was closed.
#[derive(Debug, PartialEq, Eq, Structural)]
pub struct Handle {
    fd: i32,
}

impl View for Handle {
    type V = int;

    closed spec fn view(&self) -> int {
        self.fd as int
    }
}

impl Handle {
    /// The descriptor of a live instance is not negative.
    #[verifier::type_invariant]
    pub closed spec fn well_formed(self) -> bool {
        self.fd >= 0
    }

    /// The descriptor that names the instance to the kernel.
    pub fn as_raw(&self) -> (fd: i32)
        ensures
            fd == self@,
            fd >= 0,
    {
        proof {
            use_type_invariant(self);
        }
        self.fd
    }
}

/// The arguments of the system call that creates an instance.
#[derive(Clone, Copy, Debug, PartialEq, Eq, Structural)]
pub struct CreateCall {
    pub flags: i32,
}

/// The arguments of the system call that closes an instance.
#[derive(Clone, Copy, Debug, PartialEq, Eq, Structural)]
pub struct CloseCall {
    pub fd: i32,
}

/// Prepares the creation of an instance, to be closed across a replacement
/// of the process image if `cloexec` is set.
pub fn create(cloexec: bool) -> (call: CreateCall)
    ensures
        call.flags == (if cloexec { EPOLL_CLOEXEC } else { 0 }),
{
    let flags: i32 = if cloexec { EPOLL_CLOEXEC } else { 0 };
    CreateCall { flags }
}

/// Reads the raw result of the create call: the handle of the new instance,
/// or, for a negative result, the failure that the platform recorded.
///
/// Call it before anything else that may record an error.
pub fn finish_create(result: i32) -> (r: Result<Handle, OsError>)
    ensures
        result >= 0 ==> (r matches Ok(handle) && handle@ == result),
        result < 0 ==> r is Err,
{
    match ok_or_get_error(result) {
        Ok(fd) => Ok(Handle { fd }),
        Err(error) => Err(error),
    }
}

/// Prepares the closing of an instance. The handle is used up: whether the
/// call then succeeds or fails, the instance must not be used again.
pub fn close(handle: Handle) -> (call: CloseCall)
    ensures
        call.fd == handle@,
{
    CloseCall { fd: handle.as_raw() }
}

} // verus!
