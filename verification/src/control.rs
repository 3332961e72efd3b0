//! Control operations: registering a descriptor, replacing its registration,
//! and removing it.

use vstd::prelude::*;
use crate::event::{payload_of, Event};
use crate::flags::bits_of;
use crate::interest::Interest;
use crate::lifecycle::Handle;

verus! {

/// The code of the operation that registers a descriptor.
pub const EPOLL_CTL_ADD: i32 = 1;
/// The code of the operation that removes a descriptor's registration.
pub const EPOLL_CTL_DEL: i32 = 2;
/// The code of the operation that replaces a descriptor's registration.
pub const EPOLL_CTL_MOD: i32 = 3;

/// What a control call does to a descriptor's registration.
#[derive(Clone, Copy, Debug, PartialEq, Eq, Structural)]
pub enum CtlOperation {
    /// Register a descriptor that is not registered.
    Add,
    /// Replace the interest set and payload of a registered descriptor.
    Mod,
    /// Remove the registration of a registered descriptor.
    Del,
}

impl CtlOperation {
    /// What `code` returns.
    pub open spec fn spec_code(self) -> i32 {
        match self {
            CtlOperation::Add => EPOLL_CTL_ADD,
            CtlOperation::Mod => EPOLL_CTL_MOD,
            CtlOperation::Del => EPOLL_CTL_DEL,
        }
    }

    /// The number that names the operation to the kernel.
    #[verifier::when_used_as_spec(spec_code)]
    pub fn code(self) -> (code: i32)
        ensures
            code == self.spec_code(),
    {
        match self {
            CtlOperation::Add => EPOLL_CTL_ADD,
            CtlOperation::Mod => EPOLL_CTL_MOD,
            CtlOperation::Del => EPOLL_CTL_DEL,
        }
    }
}

/// The arguments of the control system call.
#[derive(Clone, Copy, Debug, PartialEq, Eq, Structural)]
pub struct CtlCall {
    pub epoll_fd: i32,
    pub op: i32,
    pub fd: i32,
    pub event: Event,
}

/// Prepares a control call on `fd`. For an addition or a modification
/// `event` carries the interest set and the payload to register; for a
/// removal the kernel ignores it.
pub fn ctl(handle: &Handle, operation: CtlOperation, fd: i32, event: Event) -> (call: CtlCall)
    ensures
        call.epoll_fd == handle@,
        call.op == operation.code(),
        call.fd == fd,
        call.event == event,
{
    CtlCall { epoll_fd: handle.as_raw(), op: operation.code(), fd, event }
}

/// Prepares the registration of `fd` with `interest`, and with its own
/// number as the payload.
pub fn add_fd(handle: &Handle, fd: i32, interest: Interest) -> (call: CtlCall)
    ensures
        call.epoll_fd == handle@,
        call.op == EPOLL_CTL_ADD,
        call.fd == fd,
        call.event == Event::new(interest, payload_of(fd)),
        call.event.config == bits_of(interest@),
{
    ctl(handle, CtlOperation::Add, fd, Event::new(interest, fd as u64))
}

/// Prepares the replacement of the registration of `fd`: `interest` takes
/// the place of the set that the descriptor was registered with, and is not
/// merged with it. The payload is again the descriptor's own number.
pub fn mod_fd(handle: &Handle, fd: i32, interest: Interest) -> (call: CtlCall)
    ensures
        call.epoll_fd == handle@,
        call.op == EPOLL_CTL_MOD,
        call.fd == fd,
        call.event == Event::new(interest, payload_of(fd)),
        call.event.config == bits_of(interest@),
{
    ctl(handle, CtlOperation::Mod, fd, Event::new(interest, fd as u64))
}

/// Prepares the removal of the registration of `fd`. The kernel ignores the
/// record of such a call; it carries the empty set and the descriptor's
/// number.
pub fn del_fd(handle: &Handle, fd: i32) -> (call: CtlCall)
    ensures
        call.epoll_fd == handle@,
        call.op == EPOLL_CTL_DEL,
        call.fd == fd,
        call.event == Event::new(Interest::empty(), payload_of(fd)),
        call.event.config == 0,
{
    proof {
        Interest::lemma_empty();
    }
    ctl(handle, CtlOperation::Del, fd, Event::new(Interest::empty(), fd as u64))
}

} // verus!
