//! Word arithmetic built from bitwise primitives.
use vstd::prelude::*;

verus! {

/// The value of a word sum, modulo the word size.
pub open spec fn wrap(v: int) -> u8 {
    (v % 256) as u8
}

proof fn lemma_ripple_step(x: u8, y: u8)
    ensures
        ((x ^ y) as int + ((x & y) << 1u8) as int) % 256 == (x as int + y as int) % 256,
{
    assert(((x ^ y) as int + ((x & y) << 1u8) as int) % 256 == (x as int + y as int) % 256)
        by (bit_vector);
}

proof fn lemma_carry_low_bits(x: u8, y: u8, k: u8)
    requires
        k <= 8,
        (y >> k) << k == y,
        y != 0,
    ensures
        k < 8,
        ((((x & y) << 1u8) >> ((k + 1) as u8)) << ((k + 1) as u8)) == (x & y) << 1u8,
{
    assert(k < 8) by (bit_vector)
        requires
            k <= 8,
            (y >> k) << k == y,
            y != 0,
    ;
    assert(((((x & y) << 1u8) >> ((k + 1) as u8)) << ((k + 1) as u8)) == (x & y) << 1u8)
        by (bit_vector)
        requires
            k < 8,
            (y >> k) << k == y,
    ;
}

/// Ripple-carry addition: the carry of each bit position is fed back
/// one position higher until no carry is left.
pub fn add(x: u8, y: u8) -> (r: u8)
    ensures
        r == wrap(x + y),
{
    let mut a: u8 = x;
    let mut b: u8 = y;
    let ghost mut k: u8 = 0;
    assert((b >> 0u8) << 0u8 == b) by (bit_vector);
    while b != 0
        invariant
            (a + b) % 256 == (x + y) % 256,
            k <= 8,
            (b >> k) << k == b,
        decreases 8 - k,
    {
        proof {
            lemma_ripple_step(a, b);
            lemma_carry_low_bits(a, b, k);
        }
        let carry: u8 = a & b;
        a = a ^ b;
        b = carry << 1u8;
        proof {
            k = (k + 1) as u8;
        }
    }
    a
}


proof fn lemma_negate(y: u8)
    ensures
        ((!y) as int + 1) % 256 == (256 - y as int) % 256,
{
    assert(((!y) as int + 1) % 256 == (256 - y as int) % 256) by (bit_vector);
}

/// Two's-complement subtraction: `x` plus the negation of `y`.
pub fn sub(x: u8, y: u8) -> (r: u8)
    ensures
        r == wrap(x - y),
{
    proof {
        lemma_negate(y);
    }
    let neg: u8 = crate::arithmetic::add(!y, 1);
    let r: u8 = crate::arithmetic::add(x, neg);
    assert((x as int + (256 - y as int) % 256) % 256 == (x as int - y as int) % 256) by {
        vstd::arithmetic::div_mod::lemma_add_mod_noop(x as int, 256 - y as int, 256);
        vstd::arithmetic::div_mod::lemma_mod_add_multiples_vanish(x as int - y as int, 256);
    }
    r
}

proof fn lemma_shift_add_step(acc: u8, x: u8, y: u8)
    ensures
        ({
            let acc2: int = if y & 1u8 != 0 { (acc as int + x as int) % 256 } else { acc as int };
            (acc2 + ((x << 1u8) as int) * ((y >> 1u8) as int)) % 256
        }) == (acc as int + x as int * y as int) % 256,
{
    assert(({
        let acc2: int = if y & 1u8 != 0 { (acc as int + x as int) % 256 } else { acc as int };
        (acc2 + ((x << 1u8) as int) * ((y >> 1u8) as int)) % 256
    }) == (acc as int + x as int * y as int) % 256) by (bit_vector);
}

/// Shift-and-add multiplication: for each set bit of `y`, the
/// correspondingly shifted `x` is added into the accumulator.
pub fn mul(x: u8, y: u8) -> (r: u8)
    ensures
        r == wrap(x * y),
{
    let mut a: u8 = x;
    let mut b: u8 = y;
    let mut out: u8 = 0;
    while b != 0
        invariant
            (out + a * b) % 256 == (x * y) % 256,
        decreases b,
    {
        proof {
            lemma_shift_add_step(out, a, b);
            assert(b >> 1u8 < b) by (bit_vector)
                requires
                    b != 0,
            ;
        }
        if b & 1u8 != 0 {
            out = crate::arithmetic::add(out, a);
        }
        a = a << 1u8;
        b = b >> 1u8;
    }
    assert((out as int + a as int * 0) % 256 == out as int % 256) by (nonlinear_arith);
    out
}


/// The single-bit masks a restoring division walks through.
pub open spec fn is_bit_mask(m: u16) -> bool {
    m == 1 || m == 2 || m == 4 || m == 8 || m == 16 || m == 32 || m == 64 || m == 128 || m == 256
}

proof fn lemma_set_quotient_bit(q: u16, mask: u16)
    requires
        is_bit_mask(mask),
        q as int % (2 * mask as int) == 0,
    ensures
        q | mask == q + mask,
        (q | mask) % mask == 0,
        q % mask == 0,
{
    let m2: u16 = (2 * mask) as u16;
    assert(mask << 1u16 == 2 * mask) by (bit_vector)
        requires
            mask <= 256,
    ;
    assert(q % m2 == 0);
    assert(q | mask == q + mask && (q | mask) % mask == 0 && q % mask == 0) by (bit_vector)
        requires
            mask == 1 || mask == 2 || mask == 4 || mask == 8 || mask == 16 || mask == 32
                || mask == 64 || mask == 128 || mask == 256,
            m2 == mask << 1u16,
            q % m2 == 0,
    ;
}

/// Restoring division. The divisor is shifted left, together with a
/// mask bit, until it exceeds the dividend; then each shift back down
/// subtracts it where it fits and sets that bit of the quotient. The
/// shifted divisor and the mask are kept one bit wider than a word so
/// that no shift loses a bit.
pub fn div(x: u8, y: u8) -> (r: u8)
    requires
        y != 0,
    ensures
        r == x / y,
{
    let mut rem: u8 = x;
    let mut d: u16 = y as u16;
    let mut mask: u16 = 1;
    while d <= rem as u16
        invariant
            y != 0,
            rem == x,
            is_bit_mask(mask),
            d == mask * y,
            mask <= d <= 510,
        decreases 510 - d,
    {
        assert(d << 1u16 == 2 * d && mask << 1u16 == 2 * mask) by (bit_vector)
            requires
                mask <= d <= 255,
        ;
        let ghost d0 = d;
        let ghost m0 = mask;
        d = d << 1u16;
        mask = mask << 1u16;
        assert(d == mask * y) by (nonlinear_arith)
            requires
                d == 2 * d0,
                mask == 2 * m0,
                d0 == m0 * y,
        ;
        assert(mask <= d) by (nonlinear_arith)
            requires
                d == mask * y,
                y >= 1,
                mask >= 0,
        ;
    }
    let mut q: u16 = 0;
    while mask > 0
        invariant
            y != 0,
            rem <= x,
            mask == 0 || is_bit_mask(mask),
            mask > 0 ==> d == mask * y,
            x == q * y + rem,
            mask > 0 ==> rem < 2 * d,
            mask > 0 ==> q as int % (2 * mask as int) == 0,
            mask == 0 ==> rem < y,
        decreases mask,
    {
        proof {
            lemma_set_quotient_bit(q, mask);
        }
        if rem as u16 >= d {
            rem = crate::arithmetic::sub(rem, d as u8);
            q = q | mask;
            assert(x == q * y + rem) by (nonlinear_arith)
                requires
                    x == (q - mask) * y + rem + d,
                    d == mask * y,
            ;
        }
        assert(d >> 1u16 == d / 2 && mask >> 1u16 == mask / 2) by (bit_vector);
        d = d >> 1u16;
        mask = mask >> 1u16;
        if mask > 0 {
            assert(d == mask * y) by (nonlinear_arith)
                requires
                    d == (2 * mask * y) / 2,
            ;
            assert(q as int % (2 * mask as int) == 0);
        }
    }
    assert(q <= x) by (nonlinear_arith)
        requires
            x == q * y + rem,
            y >= 1,
            rem >= 0,
            q >= 0,
    ;
    proof {
        vstd::arithmetic::div_mod::lemma_fundamental_div_mod_converse(
            x as int,
            y as int,
            q as int,
            rem as int,
        );
    }
    q as u8
}

/// Adding a word to its two's-complement negation gives zero.
pub proof fn lemma_add_negation(x: u8)
    ensures
        wrap(x + wrap(0 - x)) == 0,
{
}

} // verus!
