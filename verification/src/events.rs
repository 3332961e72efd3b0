//! Result sets: what the kernel reports of a ready descriptor.

use vstd::prelude::*;
use crate::bits::{lemma_closed, lemma_restrict, lemma_zero_meets};
use crate::flags::{
    bits_of, flags_of, lemma_bits_of_flags_of, lemma_covers, lemma_events_known,
    lemma_flags_determine_bits, lemma_flags_of_events, lemma_flags_of_mask, lemma_flags_of_or,
    lemma_flags_of_zero, lemma_no_flags, lemma_overlaps, readiness, Flag, ERROR, EVENTS_ALL,
    HANG_UP, INTEREST_ALL, READ, READ_CLOSED, URGENT, WRITE,
};

verus! {

/// The conditions that hold of a descriptor at the time of a report.
///
/// The set is kept as the raw mask that the kernel gives, and is viewed as
/// the set of the flags whose bits are set. Only the bits of the conditions
/// that the kernel reports are ever set: the flags that steer a registration
/// never appear.
#[derive(Clone, Copy, Debug, PartialEq, Eq, Hash, Structural)]
pub struct Events {
    bits: u32,
}

impl View for Events {
    type V = Set<Flag>;

    closed spec fn view(&self) -> Set<Flag> {
        flags_of(self.bits)
    }
}

impl Events {
    /// No bit outside the result space is set. This holds of every result
    /// set that a program can get hold of.
    #[verifier::type_invariant]
    pub closed spec fn well_formed(self) -> bool {
        self.bits & !EVENTS_ALL == 0
    }

    /// What `empty` returns.
    pub closed spec fn spec_empty() -> Events {
        Events { bits: 0 }
    }

    /// What `bits` returns.
    pub closed spec fn spec_bits(&self) -> u32 {
        self.bits
    }

    /// What `from_bits_truncate` returns.
    pub closed spec fn spec_from_bits_truncate(bits: u32) -> Events {
        Events { bits: bits & EVENTS_ALL }
    }

    /// What `union` returns.
    pub closed spec fn spec_union(self, other: Events) -> Events {
        Events { bits: self.bits | other.bits }
    }

    /// The set that holds no condition.
    #[verifier::when_used_as_spec(spec_empty)]
    pub fn empty() -> (r: Events)
        ensures
            r == Events::spec_empty(),
            r@ == Set::<Flag>::empty(),
    {
        proof {
            Self::lemma_empty();
        }
        Events { bits: 0 }
    }

    /// Whether the set holds no condition.
    pub fn is_empty(&self) -> (b: bool)
        ensures
            b <==> self@ == Set::<Flag>::empty(),
    {
        proof {
            use_type_invariant(self);
            lemma_events_known(self.bits);
            lemma_no_flags(self.bits);
        }
        self.bits == 0
    }

    /// The raw mask of this set, as the kernel gave it.
    #[verifier::when_used_as_spec(spec_bits)]
    pub fn bits(&self) -> (bits: u32)
        ensures
            bits == self.spec_bits(),
            bits == bits_of(self@),
    {
        proof {
            use_type_invariant(self);
            Self::lemma_bits(*self);
        }
        self.bits
    }

    /// The set of the reported conditions whose bits are set in `bits`. Every
    /// other bit is dropped.
    #[verifier::when_used_as_spec(spec_from_bits_truncate)]
    pub fn from_bits_truncate(bits: u32) -> (r: Events)
        ensures
            r == Events::spec_from_bits_truncate(bits),
            r@ == readiness(flags_of(bits)),
    {
        proof {
            Self::lemma_from_bits_truncate(bits);
        }
        Events { bits: bits & EVENTS_ALL }
    }

    /// The set of the conditions that either set holds.
    #[verifier::when_used_as_spec(spec_union)]
    pub fn union(self, other: Events) -> (r: Events)
        ensures
            r == self.spec_union(other),
            r@ == self@.union(other@),
    {
        proof {
            use_type_invariant(self);
            use_type_invariant(other);
            Self::lemma_union(self, other);
        }
        Events { bits: self.bits | other.bits }
    }

    /// Whether this set holds every condition of `other`.
    pub fn contains(&self, other: Events) -> (b: bool)
        ensures
            b <==> other@.subset_of(self@),
    {
        proof {
            use_type_invariant(other);
            lemma_events_known(other.bits);
            lemma_covers(self.bits, other.bits);
        }
        self.bits & other.bits == other.bits
    }

    /// Whether the two sets have a condition in common.
    pub fn intersects(&self, other: Events) -> (b: bool)
        ensures
            b <==> !self@.disjoint(other@),
    {
        proof {
            use_type_invariant(self);
            lemma_events_known(self.bits);
            lemma_overlaps(self.bits, other.bits);
        }
        self.bits & other.bits != 0
    }

    /// Whether data is available to read.
    #[inline]
    pub fn is_readable(self) -> (b: bool)
        ensures
            b <==> self@.contains(Flag::Read),
    {
        self.bits & READ != 0
    }

    /// Whether writing will not block.
    #[inline]
    pub fn is_writable(self) -> (b: bool)
        ensures
            b <==> self@.contains(Flag::Write),
    {
        self.bits & WRITE != 0
    }

    /// Whether urgent out-of-band data is available.
    #[inline]
    pub fn is_urgent(self) -> (b: bool)
        ensures
            b <==> self@.contains(Flag::Urgent),
    {
        self.bits & URGENT != 0
    }

    /// Whether an error condition is pending.
    #[inline]
    pub fn is_error(self) -> (b: bool)
        ensures
            b <==> self@.contains(Flag::Error),
    {
        self.bits & ERROR != 0
    }

    /// Whether the peer hung up.
    #[inline]
    pub fn is_hang_up(self) -> (b: bool)
        ensures
            b <==> self@.contains(Flag::HangUp),
    {
        self.bits & HANG_UP != 0
    }

    /// Whether the peer closed its writing half.
    #[inline]
    pub fn is_read_closed(self) -> (b: bool)
        ensures
            b <==> self@.contains(Flag::ReadClosed),
    {
        self.bits & READ_CLOSED != 0
    }

    /// Whether the connection is closed: the peer hung up or closed its
    /// writing half.
    #[inline]
    pub fn is_closed(self) -> (b: bool)
        ensures
            b <==> (self@.contains(Flag::HangUp) || self@.contains(Flag::ReadClosed)),
    {
        let either = Events::from_bits_truncate(HANG_UP | READ_CLOSED);
        proof {
            lemma_flags_of_or(HANG_UP, READ_CLOSED);
            lemma_flags_of_mask(Flag::HangUp);
            lemma_flags_of_mask(Flag::ReadClosed);
            assert(either@ =~= Set::<Flag>::empty().insert(Flag::HangUp).insert(Flag::ReadClosed));
        }
        self.intersects(either)
    }

    /// The empty set is well formed, holds no flag and has the zero mask.
    pub proof fn lemma_empty()
        ensures
            Events::empty().well_formed(),
            Events::empty()@ == Set::<Flag>::empty(),
            Events::empty().bits() == 0,
    {
        lemma_flags_of_zero();
        lemma_zero_meets(!EVENTS_ALL);
    }

    /// A well-formed set holds only conditions that the kernel reports, and
    /// its mask has exactly their bits.
    pub proof fn lemma_bits(events: Events)
        requires
            events.well_formed(),
        ensures
            events.bits() == bits_of(events@),
            events.bits() & !EVENTS_ALL == 0,
            forall|f: Flag| events@.contains(f) ==> f.is_readiness(),
    {
        lemma_events_known(events.bits);
        lemma_bits_of_flags_of(events.bits);
        lemma_restrict(events.bits, INTEREST_ALL);
        lemma_restrict(events.bits, EVENTS_ALL);
        lemma_flags_of_events(events.bits);
    }

    /// Reading a mask keeps the reported conditions whose bits are set and
    /// drops every other bit.
    pub proof fn lemma_from_bits_truncate(bits: u32)
        ensures
            Events::from_bits_truncate(bits).well_formed(),
            Events::from_bits_truncate(bits)@ == readiness(flags_of(bits)),
            Events::from_bits_truncate(bits).bits() == bits & EVENTS_ALL,
            forall|f: Flag|
                Events::from_bits_truncate(bits)@.contains(f)
                    <==> (f.is_readiness() && bits & f.mask() != 0),
    {
        lemma_restrict(bits, EVENTS_ALL);
        lemma_flags_of_events(bits);
    }

    /// The union of two sets holds the conditions of both.
    pub proof fn lemma_union(a: Events, b: Events)
        ensures
            a.union(b)@ == a@.union(b@),
            a.well_formed() && b.well_formed() ==> a.union(b).well_formed(),
    {
        lemma_flags_of_or(a.bits, b.bits);
        if a.well_formed() && b.well_formed() {
            lemma_closed(a.bits, b.bits, EVENTS_ALL);
        }
    }

    /// Well-formed sets that hold the same conditions are the same value.
    pub proof fn lemma_extensional(a: Events, b: Events)
        requires
            a.well_formed(),
            b.well_formed(),
            a@ == b@,
        ensures
            a == b,
    {
        lemma_events_known(a.bits);
        lemma_events_known(b.bits);
        lemma_flags_determine_bits(a.bits, b.bits);
    }

    /// Writing a set out as a raw mask and reading the mask back gives the
    /// set again.
    pub proof fn lemma_round_trip(events: Events)
        requires
            events.well_formed(),
        ensures
            Events::from_bits_truncate(events.bits()) == events,
    {
        lemma_restrict(events.bits, EVENTS_ALL);
    }

    /// Union is associative, commutative and idempotent, and the empty set is
    /// its identity.
    pub proof fn lemma_union_laws(a: Events, b: Events, c: Events)
        ensures
            a.union(b).union(c) == a.union(b.union(c)),
            a.union(b) == b.union(a),
            a.union(a) == a,
            a.union(Events::empty()) == a,
    {
        let x = a.bits;
        let y = b.bits;
        let z = c.bits;
        assert((x | y) | z == x | (y | z) && x | y == y | x && x | x == x && x | 0 == x)
            by (bit_vector);
    }
}

impl Default for Events {
    /// The empty set.
    fn default() -> (r: Events)
        ensures
            r == Events::empty(),
            r@ == Set::<Flag>::empty(),
    {
        Events::empty()
    }
}

} // verus!
