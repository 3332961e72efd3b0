//! A typed, verified layer over the Linux readiness-notification interface.
//!
//! The library holds no kernel state and makes no system call. It builds the
//! arguments of each call, reads each call's outcome, and models the flag
//! sets and event records that cross the kernel boundary.
//!
//! Every operation goes in three steps. The library prepares the call:
//! `create`, `add_fd`, `mod_fd`, `del_fd`, `wait` and `close` give its
//! arguments. The caller makes the system call with exactly those arguments.
//! The library reads the raw result: `finish_create`, `acknowledge` and
//! `finish_wait` turn it into a handle, a count of delivered records, or the
//! error that the platform recorded.
//!
//! The numbers in `flags`, `control` and `lifecycle` are those of the kernel
//! interface on x86-64 Linux.

pub mod bits;
pub mod control;
pub mod error;
pub mod event;
pub mod events;
pub mod flags;
pub mod interest;
pub mod lifecycle;
pub mod wait;

pub use crate::control::{add_fd, ctl, del_fd, mod_fd, CtlCall, CtlOperation};
pub use crate::error::{acknowledge, ok_or_get_error, outcome, OsError};
pub use crate::event::Event;
pub use crate::events::Events;
pub use crate::flags::Flag;
pub use crate::interest::Interest;
pub use crate::lifecycle::{close, create, finish_create, CloseCall, CreateCall, Handle};
pub use crate::wait::{deliver, finish_wait, wait, WaitCall};
