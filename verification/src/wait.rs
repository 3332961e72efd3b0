//! Waiting: the call that blocks until descriptors are ready, and the
//! delivery of what the kernel reported into the caller's buffer.

use vstd::math::min;
use vstd::prelude::*;
use crate::error::{ok_or_get_error, OsError};
use crate::event::Event;
use crate::lifecycle::Handle;

verus! {

/// The timeout argument that makes the kernel block until a descriptor is
/// ready.
pub const BLOCK: i32 = -1;

/// The arguments of the wait system call.
#[derive(Clone, Copy, Debug, PartialEq, Eq, Structural)]
pub struct WaitCall {
    pub epoll_fd: i32,
    pub max_events: i32,
    pub timeout: i32,
}

/// The timeout argument for a bound in milliseconds, or for no bound.
pub open spec fn timeout_arg(timeout: Option<i32>) -> i32 {
    match timeout {
        Some(ms) => ms,
        None => BLOCK,
    }
}

/// The number of records that the kernel is asked for, for a buffer of
/// `capacity` records: the capacity itself as far as the argument can hold
/// it, and its low 32 bits beyond that.
pub open spec fn max_events_arg(capacity: usize) -> i32 {
    capacity as i32
}

/// The number of records that reach the caller: as many as the kernel
/// reported, but no more than were staged and no more than the buffer holds.
pub open spec fn delivered_count(count: int, staged: int, capacity: int) -> int {
    if count <= 0 {
        0
    } else {
        min(count, min(staged, capacity))
    }
}

/// The caller's buffer after delivery: the reported records at the front,
/// in the order in which the kernel gave them, and behind them what the
/// buffer held before.
pub open spec fn delivered(count: int, staged: Seq<Event>, before: Seq<Event>) -> Seq<Event> {
    let n = delivered_count(count, staged.len() as int, before.len() as int);
    staged.take(n) + before.skip(n)
}

/// Delivery never goes past the end of the buffer nor of the staging area,
/// keeps the buffer's length, fills the front of the buffer from the staging
/// area record by record, and leaves every record behind the front as it was.
pub proof fn lemma_delivered(count: int, staged: Seq<Event>, before: Seq<Event>)
    ensures
        0 <= delivered_count(count, staged.len() as int, before.len() as int) <= before.len(),
        delivered_count(count, staged.len() as int, before.len() as int) <= staged.len(),
        delivered_count(count, staged.len() as int, before.len() as int) <= count || count < 0,
        delivered(count, staged, before).len() == before.len(),
        forall|i: int|
            0 <= i < delivered_count(count, staged.len() as int, before.len() as int)
                ==> delivered(count, staged, before)[i] == staged[i],
        forall|i: int|
            delivered_count(count, staged.len() as int, before.len() as int) <= i < before.len()
                ==> delivered(count, staged, before)[i] == before[i],
{
}

/// Prepares a wait on the instance for a buffer of `capacity` records.
/// Without a timeout the kernel blocks until a descriptor is ready; with one
/// it returns after that many milliseconds at the latest, and at once for
/// zero. A negative timeout is handed on as it is, and the kernel takes it
/// for none.
pub fn wait(handle: &Handle, timeout: Option<i32>, capacity: usize) -> (call: WaitCall)
    ensures
        call.epoll_fd == handle@,
        call.timeout == timeout_arg(timeout),
        call.max_events == max_events_arg(capacity),
        call.max_events <= capacity,
        capacity <= i32::MAX ==> call.max_events == capacity,
{
    let timeout: i32 = match timeout {
        Some(ms) => ms,
        None => BLOCK,
    };
    WaitCall { epoll_fd: handle.as_raw(), max_events: capacity as i32, timeout }
}

/// Copies the records that the kernel reported from the staging area into
/// the caller's buffer, first to last, and returns their number. The rest of
/// the buffer is left as it was.
pub fn deliver(count: i32, staged: &[Event], buf: &mut [Event]) -> (n: usize)
    ensures
        n == delivered_count(count as int, staged@.len() as int, old(buf)@.len() as int),
        n <= old(buf)@.len(),
        final(buf)@ == delivered(count as int, staged@, old(buf)@),
{
    let mut n: usize = 0;
    if count > 0 {
        n = count as usize;
        if n > staged.len() {
            n = staged.len();
        }
        if n > buf.len() {
            n = buf.len();
        }
    }
    let mut i: usize = 0;
    while i < n
        invariant
            i <= n,
            n <= staged@.len(),
            n <= buf@.len(),
            buf@.len() == old(buf)@.len(),
            buf@ == staged@.take(i as int) + old(buf)@.skip(i as int),
        decreases n - i,
    {
        buf[i] = staged[i];
        i += 1;
    }
    n
}

/// Reads the raw result of the wait call. On success the reported records
/// are delivered into `buf` as by `deliver`, and their number is returned; a
/// count of zero means that the timeout ran out with no descriptor ready. On
/// failure, an interrupted wait among them, `buf` is left as it was.
///
/// Call it before anything else that may record an error.
pub fn finish_wait(result: i32, staged: &[Event], buf: &mut [Event]) -> (r: Result<usize, OsError>)
    ensures
        result < 0 ==> (r is Err && final(buf)@ == old(buf)@),
        result >= 0 ==> (r matches Ok(n) && n == delivered_count(
            result as int,
            staged@.len() as int,
            old(buf)@.len() as int,
        )),
        result >= 0 ==> final(buf)@ == delivered(result as int, staged@, old(buf)@),
        final(buf)@.len() == old(buf)@.len(),
        r matches Ok(n) ==> n <= old(buf)@.len(),
{
    match ok_or_get_error(result) {
        Ok(count) => Ok(deliver(count, staged, buf)),
        Err(error) => Err(error),
    }
}

} // verus!
