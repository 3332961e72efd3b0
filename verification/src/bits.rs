//! Facts about 32-bit masks, proved once by bit-blasting.

use vstd::prelude::*;

verus! {

/// Exactly one bit of `m` is set.
pub open spec fn one_bit(m: u32) -> bool {
    m != 0 && m & ((m - 1) as u32) == 0
}

/// Two one-bit masks overlap only when they are the same mask.
pub proof fn lemma_one_bit_overlap(a: u32, b: u32)
    by (bit_vector)
    requires
        a != 0 && a & ((a - 1) as u32) == 0,
        b != 0 && b & ((b - 1) as u32) == 0,
    ensures
        (a & b != 0) <==> a == b,
{
}

/// A union of masks meets `m` exactly when one of its parts does.
pub proof fn lemma_or_meets(a: u32, b: u32, m: u32)
    by (bit_vector)
    ensures
        ((a | b) & m != 0) <==> (a & m != 0 || b & m != 0),
{
}

/// An intersection of masks meets a one-bit mask exactly when both parts do.
pub proof fn lemma_and_meets(a: u32, b: u32, m: u32)
    by (bit_vector)
    requires
        m != 0 && m & ((m - 1) as u32) == 0,
    ensures
        ((a & b) & m != 0) <==> (a & m != 0 && b & m != 0),
{
}

/// Keeping one bit of `b` gives that bit or nothing.
pub proof fn lemma_keep_one_bit(b: u32, m: u32)
    by (bit_vector)
    requires
        m != 0 && m & ((m - 1) as u32) == 0,
    ensures
        b & m == (if b & m != 0 { m } else { 0 }),
{
}

/// The empty mask meets nothing.
pub proof fn lemma_zero_meets(m: u32)
    by (bit_vector)
    ensures
        0u32 & m == 0,
{
}

/// A mask inside `all` is unchanged by restriction to `all`, and restriction to
/// `all` always lands inside `all`.
pub proof fn lemma_restrict(b: u32, all: u32)
    by (bit_vector)
    ensures
        (b & all) & !all == 0,
        b & !all == 0 ==> b & all == b,
{
}

/// Unions and intersections of masks inside `all` stay inside `all`.
pub proof fn lemma_closed(a: u32, b: u32, all: u32)
    by (bit_vector)
    requires
        a & !all == 0,
    ensures
        (a & b) & !all == 0,
        b & !all == 0 ==> (a | b) & !all == 0,
{
}

} // verus!
