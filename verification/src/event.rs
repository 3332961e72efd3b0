//! Event records: a flag word and a payload, as they cross the kernel
//! boundary.

use vstd::prelude::*;
use crate::events::Events;
use crate::flags::{bits_of, flags_of, lemma_flags_of_bits_of, readiness, Flag};
use crate::interest::Interest;

verus! {

/// One record of the kernel's event interface.
///
/// On registration `config` carries an interest set and `data` the payload to
/// hand back. In a report `config` carries the conditions that hold and
/// `data` the payload that the descriptor was registered with. The kernel
/// does not read the payload.
///
/// This is the record's content, not its layout: how the two fields lie in
/// the memory that the kernel reads and writes is for the code that makes
/// the system calls to get right.
#[derive(Clone, Copy, Debug, PartialEq, Eq, Structural)]
pub struct Event {
    pub config: u32,
    pub data: u64,
}

/// The payload that stands for a descriptor: its number, sign-extended.
pub open spec fn payload_of(fd: i32) -> u64 {
    fd as u64
}

/// The descriptor that a payload stands for: its low 32 bits.
pub open spec fn fd_of(data: u64) -> i32 {
    data as i32
}

/// A descriptor's number comes back unchanged from its payload.
pub proof fn lemma_fd_round_trip(fd: i32)
    ensures
        fd_of(payload_of(fd)) == fd,
{
    assert((fd as u64) as i32 == fd) by (bit_vector);
}

impl Event {
    /// What `new` returns.
    pub open spec fn spec_new(interest: Interest, data: u64) -> Event {
        Event { config: interest.bits(), data }
    }

    /// What `events` returns.
    pub open spec fn spec_events(self) -> Events {
        Events::from_bits_truncate(self.config)
    }

    /// A record built for registration reports, when read as a result, the
    /// conditions that were asked for and none of the flags that only steer
    /// the registration. Its payload is the one given.
    pub proof fn lemma_events_of_interest(interest: Interest, data: u64)
        requires
            interest.well_formed(),
        ensures
            Event::new(interest, data).events()@ == readiness(interest@),
            Event::new(interest, data).data == data,
            forall|f: Flag|
                f.is_readiness() ==> (Event::new(interest, data).events()@.contains(f)
                    <==> interest@.contains(f)),
    {
        Interest::lemma_bits(interest);
        Events::lemma_from_bits_truncate(interest.bits());
        lemma_flags_of_bits_of(interest@);
    }

    /// The record with no flag and a zero payload.
    #[inline]
    pub fn blank() -> (e: Event)
        ensures
            e == (Event { config: 0, data: 0 }),
    {
        Event { config: 0, data: 0 }
    }

    /// The record that registers `interest` with the payload `data`.
    #[verifier::when_used_as_spec(spec_new)]
    pub fn new(interest: Interest, data: u64) -> (e: Event)
        ensures
            e == Event::spec_new(interest, data),
            e.config == bits_of(interest@),
            e.data == data,
    {
        Event { config: interest.bits(), data }
    }

    /// The payload read as a descriptor.
    #[inline]
    pub fn fd(&self) -> (fd: i32)
        ensures
            fd == fd_of(self.data),
    {
        self.data as i32
    }

    /// The conditions that the record reports. Bits of `config` that stand
    /// for no reported condition are ignored.
    #[inline]
    #[verifier::when_used_as_spec(spec_events)]
    pub fn events(self) -> (r: Events)
        ensures
            r == self.spec_events(),
            r@ == readiness(flags_of(self.config)),
    {
        Events::from_bits_truncate(self.config)
    }
}

} // verus!
