//! The flag space shared by interest sets and result sets.
//!
//! A flag is one bit of a 32-bit mask, at the position that the kernel gives
//! it. Six flags name conditions of a descriptor, which the kernel reports;
//! four name modes, which only steer how a registration behaves and never
//! appear in a report.
//!
//! The library does not judge combinations of flags. A combination that the
//! kernel refuses comes back as the error of the control call that carried
//! it.

use vstd::prelude::*;
use crate::bits::{
    lemma_and_meets, lemma_closed, lemma_keep_one_bit, lemma_one_bit_overlap, lemma_or_meets,
    lemma_restrict, lemma_zero_meets, one_bit,
};

verus! {

/// The bit of [`Flag::Read`].
pub const READ: u32 = 0x0000_0001;
/// The bit of [`Flag::Urgent`].
pub const URGENT: u32 = 0x0000_0002;
/// The bit of [`Flag::Write`].
pub const WRITE: u32 = 0x0000_0004;
/// The bit of [`Flag::Error`].
pub const ERROR: u32 = 0x0000_0008;
/// The bit of [`Flag::HangUp`].
pub const HANG_UP: u32 = 0x0000_0010;
/// The bit of [`Flag::ReadClosed`].
pub const READ_CLOSED: u32 = 0x0000_2000;
/// The bit of [`Flag::Exclusive`].
pub const EXCLUSIVE: u32 = 0x1000_0000;
/// The bit of [`Flag::WakeUp`].
pub const WAKE_UP: u32 = 0x2000_0000;
/// The bit of [`Flag::OneShot`].
pub const ONE_SHOT: u32 = 0x4000_0000;
/// The bit of [`Flag::EdgeTriggered`].
pub const EDGE_TRIGGERED: u32 = 0x8000_0000;

/// The bits of all ten flags: every bit that an interest set may hold.
pub const INTEREST_ALL: u32 = 0xF000_201F;
/// The bits of the six conditions: every bit that a result set may hold.
pub const EVENTS_ALL: u32 = 0x0000_201F;

/// One named member of the flag space.
#[derive(Clone, Copy, Debug, PartialEq, Eq, Hash, Structural)]
pub enum Flag {
    /// Data is available to read.
    Read,
    /// Writing will not block.
    Write,
    /// Urgent out-of-band data is available.
    Urgent,
    /// An error condition is pending. The kernel reports it whether it was
    /// asked for or not.
    Error,
    /// The peer hung up. The kernel reports it whether it was asked for or
    /// not.
    HangUp,
    /// The peer closed its writing half.
    ReadClosed,
    /// Report a descriptor once per change of state, not for as long as the
    /// state lasts. The caller must then read or write until the descriptor
    /// would block, or further reports may be missed.
    EdgeTriggered,
    /// Disable the registration after its first report. The caller must
    /// modify the registration to arm it again.
    OneShot,
    /// Where several instances watch the descriptor, wake only one of them.
    Exclusive,
    /// Keep the system from suspending while the event is handled.
    WakeUp,
}

impl Flag {
    /// What `mask` returns.
    pub open spec fn spec_mask(self) -> u32 {
        match self {
            Flag::Read => READ,
            Flag::Write => WRITE,
            Flag::Urgent => URGENT,
            Flag::Error => ERROR,
            Flag::HangUp => HANG_UP,
            Flag::ReadClosed => READ_CLOSED,
            Flag::EdgeTriggered => EDGE_TRIGGERED,
            Flag::OneShot => ONE_SHOT,
            Flag::Exclusive => EXCLUSIVE,
            Flag::WakeUp => WAKE_UP,
        }
    }

    /// The bit that stands for this flag in a raw mask.
    #[verifier::when_used_as_spec(spec_mask)]
    pub fn mask(self) -> (m: u32)
        ensures
            m == self.spec_mask(),
    {
        match self {
            Flag::Read => READ,
            Flag::Write => WRITE,
            Flag::Urgent => URGENT,
            Flag::Error => ERROR,
            Flag::HangUp => HANG_UP,
            Flag::ReadClosed => READ_CLOSED,
            Flag::EdgeTriggered => EDGE_TRIGGERED,
            Flag::OneShot => ONE_SHOT,
            Flag::Exclusive => EXCLUSIVE,
            Flag::WakeUp => WAKE_UP,
        }
    }

    /// Whether the flag names a condition that the kernel reports, as opposed
    /// to a mode that only steers how a registration behaves.
    pub open spec fn is_readiness(self) -> bool {
        match self {
            Flag::Read | Flag::Write | Flag::Urgent | Flag::Error | Flag::HangUp
            | Flag::ReadClosed => true,
            Flag::EdgeTriggered | Flag::OneShot | Flag::Exclusive | Flag::WakeUp => false,
        }
    }
}

/// The flags whose bits are set in `bits`. Bits that stand for no flag are
/// ignored.
pub open spec fn flags_of(bits: u32) -> Set<Flag> {
    Set::new(|f: Flag| bits & f.mask() != 0)
}

/// The bit of `f` if `flags` holds it, else nothing.
pub open spec fn bit_if(flags: Set<Flag>, f: Flag) -> u32 {
    if flags.contains(f) {
        f.mask()
    } else {
        0
    }
}

/// The raw mask that has exactly the bits of the flags in `flags`.
pub open spec fn bits_of(flags: Set<Flag>) -> u32 {
    bit_if(flags, Flag::Read) | bit_if(flags, Flag::Write) | bit_if(flags, Flag::Urgent)
        | bit_if(flags, Flag::Error) | bit_if(flags, Flag::HangUp)
        | bit_if(flags, Flag::ReadClosed) | bit_if(flags, Flag::EdgeTriggered)
        | bit_if(flags, Flag::OneShot) | bit_if(flags, Flag::Exclusive)
        | bit_if(flags, Flag::WakeUp)
}

/// The members of `flags` that the kernel can report.
pub open spec fn readiness(flags: Set<Flag>) -> Set<Flag> {
    flags.filter(|f: Flag| f.is_readiness())
}

/// Every flag's mask is a single bit.
pub proof fn lemma_mask_one_bit(f: Flag)
    ensures
        one_bit(f.mask()),
{
    assert(one_bit(READ) && one_bit(WRITE) && one_bit(URGENT) && one_bit(ERROR) && one_bit(HANG_UP)
        && one_bit(READ_CLOSED) && one_bit(EDGE_TRIGGERED) && one_bit(ONE_SHOT)
        && one_bit(EXCLUSIVE) && one_bit(WAKE_UP)) by (bit_vector);
}

/// Every flag's mask lies inside the flag space.
pub proof fn lemma_mask_known(f: Flag)
    ensures
        f.mask() & !INTEREST_ALL == 0,
{
    assert(READ & !INTEREST_ALL == 0 && WRITE & !INTEREST_ALL == 0 && URGENT & !INTEREST_ALL == 0
        && ERROR & !INTEREST_ALL == 0 && HANG_UP & !INTEREST_ALL == 0
        && READ_CLOSED & !INTEREST_ALL == 0 && EDGE_TRIGGERED & !INTEREST_ALL == 0
        && ONE_SHOT & !INTEREST_ALL == 0 && EXCLUSIVE & !INTEREST_ALL == 0
        && WAKE_UP & !INTEREST_ALL == 0) by (bit_vector);
}

/// Distinct flags have disjoint masks.
pub proof fn lemma_masks_overlap(f: Flag, g: Flag)
    ensures
        (f.mask() & g.mask() != 0) <==> f == g,
{
    lemma_mask_one_bit(f);
    lemma_mask_one_bit(g);
    lemma_one_bit_overlap(f.mask(), g.mask());
}

/// The empty mask holds no flag.
pub proof fn lemma_flags_of_zero()
    ensures
        flags_of(0) == Set::<Flag>::empty(),
{
    assert forall|f: Flag| !flags_of(0).contains(f) by {
        lemma_zero_meets(f.mask());
    }
    assert(flags_of(0) =~= Set::<Flag>::empty());
}

/// A flag's own mask holds that flag and no other.
pub proof fn lemma_flags_of_mask(f: Flag)
    ensures
        flags_of(f.mask()) == Set::<Flag>::empty().insert(f),
{
    assert forall|g: Flag| flags_of(f.mask()).contains(g) <==> g == f by {
        lemma_masks_overlap(f, g);
    }
    assert(flags_of(f.mask()) =~= Set::<Flag>::empty().insert(f));
}

/// Bitwise or is set union.
pub proof fn lemma_flags_of_or(a: u32, b: u32)
    ensures
        flags_of(a | b) == flags_of(a).union(flags_of(b)),
{
    assert forall|f: Flag|
        flags_of(a | b).contains(f) <==> (flags_of(a).contains(f) || flags_of(b).contains(f)) by {
        lemma_or_meets(a, b, f.mask());
    }
    assert(flags_of(a | b) =~= flags_of(a).union(flags_of(b)));
}

/// Bitwise and is set intersection.
pub proof fn lemma_flags_of_and(a: u32, b: u32)
    ensures
        flags_of(a & b) == flags_of(a).intersect(flags_of(b)),
{
    assert forall|f: Flag|
        flags_of(a & b).contains(f) <==> (flags_of(a).contains(f) && flags_of(b).contains(f)) by {
        lemma_mask_one_bit(f);
        lemma_and_meets(a, b, f.mask());
    }
    assert(flags_of(a & b) =~= flags_of(a).intersect(flags_of(b)));
}

/// Writing out the flags of a mask gives back the mask's known bits.
pub proof fn lemma_bits_of_flags_of(bits: u32)
    ensures
        bits_of(flags_of(bits)) == bits & INTEREST_ALL,
{
    let s = flags_of(bits);
    assert forall|f: Flag| bit_if(s, f) == bits & f.mask() by {
        lemma_mask_one_bit(f);
        lemma_keep_one_bit(bits, f.mask());
    }
    assert((bits & READ) | (bits & WRITE) | (bits & URGENT) | (bits & ERROR) | (bits & HANG_UP)
        | (bits & READ_CLOSED) | (bits & EDGE_TRIGGERED) | (bits & ONE_SHOT) | (bits & EXCLUSIVE)
        | (bits & WAKE_UP) == bits & INTEREST_ALL) by (bit_vector);
}

/// Reading the flags of a written-out set gives back the set.
pub proof fn lemma_flags_of_bits_of(flags: Set<Flag>)
    ensures
        flags_of(bits_of(flags)) == flags,
{
    let t0 = bit_if(flags, Flag::Read);
    let t1 = bit_if(flags, Flag::Write);
    let t2 = bit_if(flags, Flag::Urgent);
    let t3 = bit_if(flags, Flag::Error);
    let t4 = bit_if(flags, Flag::HangUp);
    let t5 = bit_if(flags, Flag::ReadClosed);
    let t6 = bit_if(flags, Flag::EdgeTriggered);
    let t7 = bit_if(flags, Flag::OneShot);
    let t8 = bit_if(flags, Flag::Exclusive);
    let t9 = bit_if(flags, Flag::WakeUp);
    assert forall|g: Flag| flags_of(bits_of(flags)).contains(g) <==> flags.contains(g) by {
        let m = g.mask();
        assert(((t0 | t1 | t2 | t3 | t4 | t5 | t6 | t7 | t8 | t9) & m != 0) <==> (t0 & m != 0
            || t1 & m != 0 || t2 & m != 0 || t3 & m != 0 || t4 & m != 0 || t5 & m != 0
            || t6 & m != 0 || t7 & m != 0 || t8 & m != 0 || t9 & m != 0)) by (bit_vector);
        lemma_zero_meets(m);
        lemma_masks_overlap(Flag::Read, g);
        lemma_masks_overlap(Flag::Write, g);
        lemma_masks_overlap(Flag::Urgent, g);
        lemma_masks_overlap(Flag::Error, g);
        lemma_masks_overlap(Flag::HangUp, g);
        lemma_masks_overlap(Flag::ReadClosed, g);
        lemma_masks_overlap(Flag::EdgeTriggered, g);
        lemma_masks_overlap(Flag::OneShot, g);
        lemma_masks_overlap(Flag::Exclusive, g);
        lemma_masks_overlap(Flag::WakeUp, g);
    }
    assert(flags_of(bits_of(flags)) =~= flags);
}

/// The interest space is the mask of all flags, and the result space the mask
/// of the conditions that the kernel reports.
pub proof fn lemma_spaces()
    ensures
        bits_of(Set::<Flag>::full()) == INTEREST_ALL,
        bits_of(Set::<Flag>::new(|f: Flag| f.is_readiness())) == EVENTS_ALL,
{
    assert(READ | WRITE | URGENT | ERROR | HANG_UP | READ_CLOSED | EDGE_TRIGGERED | ONE_SHOT
        | EXCLUSIVE | WAKE_UP == INTEREST_ALL) by (bit_vector);
    assert(READ | WRITE | URGENT | ERROR | HANG_UP | READ_CLOSED | 0 | 0 | 0 | 0 == EVENTS_ALL)
        by (bit_vector);
}

/// A mask without unknown bits is determined by the flags it holds.
pub proof fn lemma_flags_determine_bits(a: u32, b: u32)
    requires
        a & !INTEREST_ALL == 0,
        b & !INTEREST_ALL == 0,
        flags_of(a) == flags_of(b),
    ensures
        a == b,
{
    lemma_bits_of_flags_of(a);
    lemma_bits_of_flags_of(b);
    lemma_restrict(a, INTEREST_ALL);
    lemma_restrict(b, INTEREST_ALL);
}

/// One mask covers another exactly when it holds every flag of the other.
pub proof fn lemma_covers(a: u32, b: u32)
    requires
        b & !INTEREST_ALL == 0,
    ensures
        (a & b == b) <==> flags_of(b).subset_of(flags_of(a)),
{
    lemma_flags_of_and(a, b);
    lemma_closed(b, a, INTEREST_ALL);
    assert(a & b == b & a) by (bit_vector);
    if flags_of(b).subset_of(flags_of(a)) {
        assert(flags_of(a).intersect(flags_of(b)) =~= flags_of(b));
        lemma_flags_determine_bits(a & b, b);
    }
}

/// Two masks overlap exactly when they hold a flag in common.
pub proof fn lemma_overlaps(a: u32, b: u32)
    requires
        a & !INTEREST_ALL == 0,
    ensures
        (a & b != 0) <==> !flags_of(a).disjoint(flags_of(b)),
{
    lemma_flags_of_and(a, b);
    lemma_closed(a, b, INTEREST_ALL);
    lemma_flags_of_zero();
    if flags_of(a).disjoint(flags_of(b)) {
        assert(flags_of(a).intersect(flags_of(b)) =~= Set::<Flag>::empty());
        lemma_zero_meets(!INTEREST_ALL);
        lemma_flags_determine_bits(a & b, 0);
    } else {
        let f = choose|f: Flag| flags_of(a).contains(f) && flags_of(b).contains(f);
        assert(flags_of(a & b).contains(f));
    }
}

/// A mask holds no flag exactly when none of its known bits is set.
pub proof fn lemma_no_flags(a: u32)
    requires
        a & !INTEREST_ALL == 0,
    ensures
        a == 0 <==> flags_of(a) == Set::<Flag>::empty(),
{
    lemma_flags_of_zero();
    lemma_zero_meets(!INTEREST_ALL);
    if flags_of(a) == Set::<Flag>::empty() {
        lemma_flags_determine_bits(a, 0);
    }
}

/// A mask inside the result space is inside the flag space.
pub proof fn lemma_events_known(bits: u32)
    by (bit_vector)
    requires
        bits & !EVENTS_ALL == 0,
    ensures
        bits & !INTEREST_ALL == 0,
{
}

/// The bits of the result space are exactly those of the flags that the
/// kernel can report.
pub proof fn lemma_flags_of_events_all()
    ensures
        flags_of(EVENTS_ALL) == Set::<Flag>::new(|f: Flag| f.is_readiness()),
{
    assert(EVENTS_ALL & READ != 0 && EVENTS_ALL & WRITE != 0 && EVENTS_ALL & URGENT != 0
        && EVENTS_ALL & ERROR != 0 && EVENTS_ALL & HANG_UP != 0 && EVENTS_ALL & READ_CLOSED != 0
        && EVENTS_ALL & EDGE_TRIGGERED == 0 && EVENTS_ALL & ONE_SHOT == 0
        && EVENTS_ALL & EXCLUSIVE == 0 && EVENTS_ALL & WAKE_UP == 0) by (bit_vector);
    assert(flags_of(EVENTS_ALL) =~= Set::<Flag>::new(|f: Flag| f.is_readiness()));
}

/// Restricting a mask to the result space keeps the flags that the kernel can
/// report and drops the others.
pub proof fn lemma_flags_of_events(bits: u32)
    ensures
        flags_of(bits & EVENTS_ALL) == readiness(flags_of(bits)),
{
    lemma_flags_of_and(bits, EVENTS_ALL);
    lemma_flags_of_events_all();
    assert(flags_of(bits).intersect(Set::<Flag>::new(|f: Flag| f.is_readiness())) =~= readiness(
        flags_of(bits),
    ));
}

} // verus!
