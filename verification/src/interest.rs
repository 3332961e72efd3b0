//! Interest sets: what a caller asks the kernel to watch a descriptor for.

use vstd::prelude::*;
use crate::bits::{lemma_closed, lemma_restrict, lemma_zero_meets};
use crate::flags::{
    bits_of, flags_of, lemma_bits_of_flags_of, lemma_covers, lemma_flags_determine_bits,
    lemma_flags_of_bits_of, lemma_flags_of_mask, lemma_flags_of_or, lemma_flags_of_zero,
    lemma_mask_known, lemma_no_flags, lemma_overlaps, Flag, INTEREST_ALL,
};

verus! {

/// A set of flags to register a descriptor with.
///
/// The set is kept as the raw mask that the kernel takes, and is viewed as
/// the set of the flags whose bits are set. Bits that stand for no flag are
/// never set, so two interest sets are equal exactly when they hold the same
/// flags.
#[derive(Clone, Copy, Debug, PartialEq, Eq, Hash, Structural)]
pub struct Interest {
    bits: u32,
}

impl View for Interest {
    type V = Set<Flag>;

    closed spec fn view(&self) -> Set<Flag> {
        flags_of(self.bits)
    }
}

impl Interest {
    /// No bit outside the flag space is set. This holds of every interest
    /// set that a program can get hold of.
    #[verifier::type_invariant]
    pub closed spec fn well_formed(self) -> bool {
        self.bits & !INTEREST_ALL == 0
    }

    /// What `empty` returns.
    pub closed spec fn spec_empty() -> Interest {
        Interest { bits: 0 }
    }

    /// What `bits` returns.
    pub closed spec fn spec_bits(&self) -> u32 {
        self.bits
    }

    /// What `from_bits_truncate` returns.
    pub closed spec fn spec_from_bits_truncate(bits: u32) -> Interest {
        Interest { bits: bits & INTEREST_ALL }
    }

    /// What `with` returns.
    pub closed spec fn spec_with(self, flag: Flag) -> Interest {
        Interest { bits: self.bits | flag.mask() }
    }

    /// What `union` returns.
    pub closed spec fn spec_union(self, other: Interest) -> Interest {
        Interest { bits: self.bits | other.bits }
    }

    /// The set that holds no flag.
    #[verifier::when_used_as_spec(spec_empty)]
    pub fn empty() -> (r: Interest)
        ensures
            r == Interest::spec_empty(),
            r@ == Set::<Flag>::empty(),
    {
        proof {
            Self::lemma_empty();
        }
        Interest { bits: 0 }
    }

    /// Whether the set holds no flag.
    pub fn is_empty(&self) -> (b: bool)
        ensures
            b <==> self@ == Set::<Flag>::empty(),
    {
        proof {
            use_type_invariant(self);
            lemma_no_flags(self.bits);
        }
        self.bits == 0
    }

    /// The raw mask that the kernel takes for this set.
    #[verifier::when_used_as_spec(spec_bits)]
    pub fn bits(&self) -> (bits: u32)
        ensures
            bits == self.spec_bits(),
            bits == bits_of(self@),
    {
        proof {
            use_type_invariant(self);
            Self::lemma_bits(*self);
        }
        self.bits
    }

    /// The set of the flags whose bits are set in `bits`. Bits that stand for
    /// no flag are dropped.
    #[verifier::when_used_as_spec(spec_from_bits_truncate)]
    pub fn from_bits_truncate(bits: u32) -> (r: Interest)
        ensures
            r == Interest::spec_from_bits_truncate(bits),
            r@ == flags_of(bits),
    {
        proof {
            Self::lemma_from_bits_truncate(bits);
        }
        Interest { bits: bits & INTEREST_ALL }
    }

    /// This set with `flag` added.
    #[verifier::when_used_as_spec(spec_with)]
    pub fn with(self, flag: Flag) -> (r: Interest)
        ensures
            r == self.spec_with(flag),
            r@ == self@.insert(flag),
    {
        proof {
            use_type_invariant(self);
            Self::lemma_with(self, flag);
        }
        Interest { bits: self.bits | flag.mask() }
    }

    /// The set of the flags that either set holds.
    #[verifier::when_used_as_spec(spec_union)]
    pub fn union(self, other: Interest) -> (r: Interest)
        ensures
            r == self.spec_union(other),
            r@ == self@.union(other@),
    {
        proof {
            use_type_invariant(self);
            use_type_invariant(other);
            Self::lemma_union(self, other);
        }
        Interest { bits: self.bits | other.bits }
    }

    /// Whether this set holds every flag of `other`.
    pub fn contains(&self, other: Interest) -> (b: bool)
        ensures
            b <==> other@.subset_of(self@),
    {
        proof {
            use_type_invariant(other);
            lemma_covers(self.bits, other.bits);
        }
        self.bits & other.bits == other.bits
    }

    /// Whether the two sets have a flag in common.
    pub fn intersects(&self, other: Interest) -> (b: bool)
        ensures
            b <==> !self@.disjoint(other@),
    {
        proof {
            use_type_invariant(self);
            lemma_overlaps(self.bits, other.bits);
        }
        self.bits & other.bits != 0
    }

    /// Also watch for data to read.
    #[inline]
    pub fn readable(self) -> (r: Interest)
        ensures
            r == self.with(Flag::Read),
            r@ == self@.insert(Flag::Read),
    {
        self.with(Flag::Read)
    }

    /// Also watch for room to write without blocking.
    #[inline]
    pub fn writable(self) -> (r: Interest)
        ensures
            r == self.with(Flag::Write),
            r@ == self@.insert(Flag::Write),
    {
        self.with(Flag::Write)
    }

    /// Also watch for urgent out-of-band data.
    #[inline]
    pub fn urgent(self) -> (r: Interest)
        ensures
            r == self.with(Flag::Urgent),
            r@ == self@.insert(Flag::Urgent),
    {
        self.with(Flag::Urgent)
    }

    /// Also ask for error conditions. The kernel reports them whether asked
    /// or not, so this changes the set and nothing else.
    #[inline]
    pub fn error(self) -> (r: Interest)
        ensures
            r == self.with(Flag::Error),
            r@ == self@.insert(Flag::Error),
    {
        self.with(Flag::Error)
    }

    /// Also ask for hang-ups. The kernel reports them whether asked or not,
    /// so this changes the set and nothing else.
    #[inline]
    pub fn hang_up(self) -> (r: Interest)
        ensures
            r == self.with(Flag::HangUp),
            r@ == self@.insert(Flag::HangUp),
    {
        self.with(Flag::HangUp)
    }

    /// Also watch for the peer closing its writing half.
    #[inline]
    pub fn closed(self) -> (r: Interest)
        ensures
            r == self.with(Flag::ReadClosed),
            r@ == self@.insert(Flag::ReadClosed),
    {
        self.with(Flag::ReadClosed)
    }

    /// Report changes of state only. The caller must then drain the
    /// descriptor after each report.
    #[inline]
    pub fn edge_triggered(self) -> (r: Interest)
        ensures
            r == self.with(Flag::EdgeTriggered),
            r@ == self@.insert(Flag::EdgeTriggered),
    {
        self.with(Flag::EdgeTriggered)
    }

    /// Disable the registration after its first report. The caller must then
    /// modify it to arm it again.
    #[inline]
    pub fn one_shot(self) -> (r: Interest)
        ensures
            r == self.with(Flag::OneShot),
            r@ == self@.insert(Flag::OneShot),
    {
        self.with(Flag::OneShot)
    }

    /// Wake only one of the instances that watch the descriptor.
    #[inline]
    pub fn exclusive(self) -> (r: Interest)
        ensures
            r == self.with(Flag::Exclusive),
            r@ == self@.insert(Flag::Exclusive),
    {
        self.with(Flag::Exclusive)
    }

    /// Keep the system from suspending while the event is handled.
    #[inline]
    pub fn wake_up(self) -> (r: Interest)
        ensures
            r == self.with(Flag::WakeUp),
            r@ == self@.insert(Flag::WakeUp),
    {
        self.with(Flag::WakeUp)
    }

    /// The empty set is well formed, holds no flag and has the zero mask.
    pub proof fn lemma_empty()
        ensures
            Interest::empty().well_formed(),
            Interest::empty()@ == Set::<Flag>::empty(),
            Interest::empty().bits() == 0,
    {
        lemma_flags_of_zero();
        lemma_zero_meets(!INTEREST_ALL);
    }

    /// The mask of a well-formed set has exactly the bits of its flags.
    pub proof fn lemma_bits(interest: Interest)
        requires
            interest.well_formed(),
        ensures
            interest.bits() == bits_of(interest@),
            interest.bits() & !INTEREST_ALL == 0,
    {
        lemma_bits_of_flags_of(interest.bits);
        lemma_restrict(interest.bits, INTEREST_ALL);
    }

    /// Reading a mask keeps the flags whose bits are set and drops every
    /// other bit.
    pub proof fn lemma_from_bits_truncate(bits: u32)
        ensures
            Interest::from_bits_truncate(bits).well_formed(),
            Interest::from_bits_truncate(bits)@ == flags_of(bits),
            Interest::from_bits_truncate(bits).bits() == bits & INTEREST_ALL,
    {
        lemma_restrict(bits, INTEREST_ALL);
        lemma_bits_of_flags_of(bits);
        lemma_flags_of_bits_of(flags_of(bits));
    }

    /// Adding a flag inserts it into the set.
    pub proof fn lemma_with(interest: Interest, flag: Flag)
        ensures
            interest.with(flag)@ == interest@.insert(flag),
            interest.well_formed() ==> interest.with(flag).well_formed(),
    {
        lemma_flags_of_or(interest.bits, flag.mask());
        lemma_flags_of_mask(flag);
        assert(interest@.union(Set::<Flag>::empty().insert(flag)) =~= interest@.insert(flag));
        if interest.well_formed() {
            lemma_mask_known(flag);
            lemma_closed(interest.bits, flag.mask(), INTEREST_ALL);
        }
    }

    /// The union of two sets holds the flags of both.
    pub proof fn lemma_union(a: Interest, b: Interest)
        ensures
            a.union(b)@ == a@.union(b@),
            a.well_formed() && b.well_formed() ==> a.union(b).well_formed(),
    {
        lemma_flags_of_or(a.bits, b.bits);
        if a.well_formed() && b.well_formed() {
            lemma_closed(a.bits, b.bits, INTEREST_ALL);
        }
    }

    /// Well-formed sets that hold the same flags are the same value.
    pub proof fn lemma_extensional(a: Interest, b: Interest)
        requires
            a.well_formed(),
            b.well_formed(),
            a@ == b@,
        ensures
            a == b,
    {
        lemma_flags_determine_bits(a.bits, b.bits);
    }

    /// Writing a set out as a raw mask and reading the mask back gives the
    /// set again.
    pub proof fn lemma_round_trip(interest: Interest)
        requires
            interest.well_formed(),
        ensures
            Interest::from_bits_truncate(interest.bits()) == interest,
    {
        lemma_restrict(interest.bits, INTEREST_ALL);
    }

    /// Union is associative, commutative and idempotent, and the empty set is
    /// its identity.
    pub proof fn lemma_union_laws(a: Interest, b: Interest, c: Interest)
        ensures
            a.union(b).union(c) == a.union(b.union(c)),
            a.union(b) == b.union(a),
            a.union(a) == a,
            a.union(Interest::empty()) == a,
    {
        let x = a.bits;
        let y = b.bits;
        let z = c.bits;
        assert((x | y) | z == x | (y | z) && x | y == y | x && x | x == x && x | 0 == x)
            by (bit_vector);
    }

    /// Adding a flag is the union with that flag alone; adding it twice is
    /// adding it once; and the order in which flags are added does not
    /// matter.
    pub proof fn lemma_with_laws(interest: Interest, f: Flag, g: Flag)
        ensures
            interest.with(f) == interest.union(Interest::empty().with(f)),
            interest.with(f).with(f) == interest.with(f),
            interest.with(f).with(g) == interest.with(g).with(f),
    {
        let x = interest.bits;
        let m = f.mask();
        let n = g.mask();
        assert(x | m == x | (0 | m) && (x | m) | m == x | m && (x | m) | n == (x | n) | m)
            by (bit_vector);
    }
}

impl Default for Interest {
    /// The empty set.
    fn default() -> (r: Interest)
        ensures
            r == Interest::empty(),
            r@ == Set::<Flag>::empty(),
    {
        Interest::empty()
    }
}

} // verus!
