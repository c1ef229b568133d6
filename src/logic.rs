//! Word comparison by a scan of the bits from the most significant down.
use vstd::prelude::*;

verus! {

/// The outcome of comparing two words.
#[derive(Debug, Clone, Copy, PartialEq, Eq, Structural)]
pub enum Ordering {
    Equal,
    Less,
    Great,
}

/// The ordering of two words as numbers.
pub open spec fn ordering_of(x: u8, y: u8) -> Ordering {
    if x < y {
        Ordering::Less
    } else if x > y {
        Ordering::Great
    } else {
        Ordering::Equal
    }
}

proof fn lemma_scan_step(x: u8, y: u8, i: u8)
    requires
        i < 8,
        x >> ((8 - i) as u8) == y >> ((8 - i) as u8),
    ensures
        (x ^ y) & (128u8 >> i) == 0 ==> x >> ((7 - i) as u8) == y >> ((7 - i) as u8),
        (x ^ y) & (128u8 >> i) != 0 && x & (128u8 >> i) != 0 ==> x > y,
        (x ^ y) & (128u8 >> i) != 0 && x & (128u8 >> i) == 0 ==> x < y,
{
    assert((x ^ y) & (128u8 >> i) == 0 ==> x >> ((7 - i) as u8) == y >> ((7 - i) as u8))
        by (bit_vector)
        requires
            i < 8,
            x >> ((8 - i) as u8) == y >> ((8 - i) as u8),
    ;
    assert((x ^ y) & (128u8 >> i) != 0 && x & (128u8 >> i) != 0 ==> x > y) by (bit_vector)
        requires
            i < 8,
            x >> ((8 - i) as u8) == y >> ((8 - i) as u8),
    ;
    assert((x ^ y) & (128u8 >> i) != 0 && x & (128u8 >> i) == 0 ==> x < y) by (bit_vector)
        requires
            i < 8,
            x >> ((8 - i) as u8) == y >> ((8 - i) as u8),
    ;
}

/// Compares two words bit by bit from the most significant bit: the
/// first bit at which they differ decides, in favour of the word that
/// has it set.
pub fn compare(x: u8, y: u8) -> (r: Ordering)
    ensures
        r == ordering_of(x, y),
{
    let diff: u8 = x ^ y;
    let mut out = Ordering::Equal;
    let mut decided: bool = false;
    let mut mask: u8 = 128;
    let mut i: u8 = 0;
    assert(x >> 8u8 == 0 && y >> 8u8 == 0 && 128u8 >> 0u8 == 128u8) by (bit_vector);
    while i < 8 && !decided
        invariant
            diff == x ^ y,
            i <= 8,
            mask == 128u8 >> i,
            !decided ==> out == Ordering::Equal,
            !decided ==> x >> ((8 - i) as u8) == y >> ((8 - i) as u8),
            decided ==> out == ordering_of(x, y),
        decreases 8 - i,
    {
        proof {
            lemma_scan_step(x, y, i);
        }
        if diff & mask != 0 {
            if x & mask != 0 {
                out = Ordering::Great;
            } else {
                out = Ordering::Less;
            }
            decided = true;
        }
        assert(mask >> 1u8 == 128u8 >> ((i + 1) as u8)) by (bit_vector)
            requires
                mask == 128u8 >> i,
                i < 8,
        ;
        mask = mask >> 1u8;
        i = i + 1;
    }
    if !decided {
        assert(x >> 0u8 == x && y >> 0u8 == y) by (bit_vector);
    }
    out
}

/// Every pair of words compares as exactly one of equal, less and
/// greater, and swapping the pair swaps less and greater.
pub proof fn lemma_compare_total_antisymmetric(x: u8, y: u8)
    ensures
        (ordering_of(x, y) == Ordering::Equal) as int + (ordering_of(x, y) == Ordering::Less) as int
            + (ordering_of(x, y) == Ordering::Great) as int == 1,
        ordering_of(x, y) == Ordering::Less <==> ordering_of(y, x) == Ordering::Great,
        ordering_of(x, y) == Ordering::Equal <==> ordering_of(y, x) == Ordering::Equal,
        ordering_of(x, y) == Ordering::Equal <==> x == y,
{
}

} // verus!
