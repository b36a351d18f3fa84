//! Binary64 floats as bit patterns: which patterns are finite, how they are
//! ordered, and which of them stand for whole numbers.

use vstd::prelude::*;
use vstd::arithmetic::power2::pow2;
use vstd::arithmetic::power2::lemma_pow2_adds;
use vstd::arithmetic::power2::lemma_pow2_pos;
use vstd::arithmetic::power2::lemma_pow2_strictly_increases;
use vstd::arithmetic::div_mod::lemma_div_multiples_vanish;
use vstd::arithmetic::power2::lemma2_to64;
use vstd::arithmetic::power2::lemma2_to64_rest;
use vstd::arithmetic::div_mod::lemma_fundamental_div_mod;
use vstd::bits::lemma_u64_shl_is_mul;
use vstd::bits::lemma_u64_shr_is_div;
use vstd::bits::lemma_u64_pow2_no_overflow;
use vstd::std_specs::bits::u64_leading_zeros;
use vstd::std_specs::bits::axiom_u64_leading_zeros;

verus! {

/// A binary64 bit pattern is finite when its exponent field is not all ones.
pub open spec fn float_bits_finite(bits: u64) -> bool {
    (bits >> 52) & 0x7ff != 0x7ff
}

/// A signed integer that orders finite binary64 bit patterns as IEEE-754 orders
/// the floats they encode: the magnitude bits, negated when the sign bit is
/// set. Both zeros map to 0.
pub open spec fn float_key(bits: u64) -> int {
    if bits >> 63 == 1 {
        -((bits & 0x7fff_ffff_ffff_ffff) as int)
    } else {
        (bits & 0x7fff_ffff_ffff_ffff) as int
    }
}

/// The index of the highest bit that is set in `m`, which is not zero.
pub open spec fn top_bit(m: u64) -> u64 {
    (63 - u64_leading_zeros(m)) as u64
}

/// The bit pattern of the non-negative float that is exactly the integer `m`,
/// or `None` where no float is. Zero is `+0.0`. Any other integer is
/// normalized: the exponent field holds 1023 plus the index of the highest bit
/// that is set, and the fraction field holds the bits below that one, aligned
/// to the left. The 52 bits of the fraction hold them unless one of the bits
/// that would have to be dropped is set, and then the integer has no float.
pub open spec fn exact_float_bits(m: u64) -> Option<u64> {
    if m == 0 {
        Some(0)
    } else if top_bit(m) <= 52 {
        Some(
            ((1023 + top_bit(m)) as u64) << 52 | (m << ((52 - top_bit(m)) as u64))
                & 0xf_ffff_ffff_ffff,
        )
    } else if m & (((1u64 << ((top_bit(m) - 52) as u64)) - 1) as u64) == 0 {
        Some(
            ((1023 + top_bit(m)) as u64) << 52 | (m >> ((top_bit(m) - 52) as u64))
                & 0xf_ffff_ffff_ffff,
        )
    } else {
        None
    }
}

/// The bit pattern of the float that is exactly the integer `m`, if there is
/// one.
pub fn exact_float_of(m: u64) -> (r: Option<u64>)
    ensures
        r == exact_float_bits(m),
        r matches Some(bits) ==> float_bits_finite(bits) && bits >> 63 == 0,
{
    if m == 0 {
        assert((0u64 >> 52) & 0x7ff != 0x7ff && 0u64 >> 63 == 0) by (bit_vector);
        return Some(0);
    }
    proof {
        axiom_u64_leading_zeros(m);
    }
    let top: u64 = (63 - m.leading_zeros()) as u64;
    let exponent: u64 = 1023 + top;
    if top <= 52 {
        let fraction: u64 = (m << (52 - top)) & 0xf_ffff_ffff_ffff;
        let bits: u64 = exponent << 52 | fraction;
        assert(((bits >> 52) & 0x7ff != 0x7ff) && bits >> 63 == 0) by (bit_vector)
            requires
                bits == exponent << 52 | fraction,
                fraction == (m << ((52 - top) as u64)) & 0xf_ffff_ffff_ffff,
                1023 <= exponent <= 1086,
        ;
        Some(bits)
    } else {
        let dropped: u64 = top - 52;
        assert(1u64 << dropped >= 1) by (bit_vector)
            requires
                dropped < 12,
        ;
        if m & ((1u64 << dropped) - 1) == 0 {
            let fraction: u64 = (m >> dropped) & 0xf_ffff_ffff_ffff;
            let bits: u64 = exponent << 52 | fraction;
            assert(((bits >> 52) & 0x7ff != 0x7ff) && bits >> 63 == 0) by (bit_vector)
                requires
                    bits == exponent << 52 | fraction,
                    fraction == (m >> dropped) & 0xf_ffff_ffff_ffff,
                    1023 <= exponent <= 1086,
            ;
            Some(bits)
        } else {
            None
        }
    }
}

/// The key by which a bit pattern is ordered.
pub fn float_key_of(bits: u64) -> (k: i128)
    ensures
        k == float_key(bits),
{
    let mag: u64 = bits & 0x7fff_ffff_ffff_ffff;
    assert(mag <= 0x7fff_ffff_ffff_ffff) by (bit_vector)
        requires
            mag == bits & 0x7fff_ffff_ffff_ffff,
    ;
    if bits >> 63 == 1 {
        -(mag as i128)
    } else {
        mag as i128
    }
}

/// The exponent field of a bit pattern.
pub open spec fn float_exponent(bits: u64) -> u64 {
    (bits >> 52) & 0x7ff
}

/// The fraction field of a bit pattern.
pub open spec fn float_fraction(bits: u64) -> u64 {
    bits & 0xf_ffff_ffff_ffff
}

/// The magnitude of the finite float with the given bit pattern is the whole
/// number `n`. A float with exponent field `e` above zero and fraction field
/// `f` has the magnitude `(2^52 + f) * 2^(e - 1075)`; one with the exponent
/// field zero has `f * 2^-1074`, which is whole only where it is zero.
pub open spec fn float_is_whole(bits: u64, n: nat) -> bool {
    let e = float_exponent(bits) as int;
    let f = float_fraction(bits) as nat;
    if e == 0 {
        f == 0 && n == 0
    } else if e >= 1075 {
        n == (pow2(52) + f) * pow2((e - 1075) as nat)
    } else {
        pow2(52) + f == n * pow2((1075 - e) as nat)
    }
}

proof fn lemma_top_bit(m: u64)
    requires
        m != 0,
    ensures
        top_bit(m) < 64,
        m >> top_bit(m) == 1,
{
    axiom_u64_leading_zeros(m);
    let lz = u64_leading_zeros(m) as u64;
    let top = top_bit(m);
    assert(top == 63 - lz);
    let bit = (m >> ((63u64 - lz) as u64)) & 1u64;
    let rest = m >> ((64u64 - lz) as u64);
    assert(bit != 0);
    assert(rest == 0);
    assert(m >> top == 1) by (bit_vector)
        requires
            lz < 64,
            top == 63 - lz,
            (m >> ((63u64 - lz) as u64)) & 1u64 != 0,
            m >> ((64u64 - lz) as u64) == 0,
    ;
}

proof fn lemma_shift_one(k: u64)
    requires
        k < 64,
    ensures
        (1u64 << k) == pow2(k as nat),
{
    lemma_u64_pow2_no_overflow(k as nat);
    lemma_u64_shl_is_mul(1, k);
}

/// The float that stands for a whole number is that number: finite, not
/// negative, and of the same magnitude.
pub proof fn law_exact_float_is_the_integer(m: u64)
    ensures
        exact_float_bits(m) matches Some(bits) ==> bits >> 63 == 0 && float_bits_finite(bits)
            && float_is_whole(bits, m as nat),
{
    lemma2_to64();
    lemma2_to64_rest();
    if m == 0 {
        assert((0u64 >> 52) & 0x7ff == 0 && 0u64 & 0xf_ffff_ffff_ffff == 0 && 0u64 >> 63 == 0)
            by (bit_vector);
        assert(float_is_whole(0, 0));
    } else {
        lemma_top_bit(m);
        let top = top_bit(m);
        let ex: u64 = (1023 + top) as u64;
        if top <= 52 {
            let s: u64 = (52 - top) as u64;
            let x: u64 = m << s;
            let bits: u64 = ex << 52 | x & 0xf_ffff_ffff_ffff;
            assert(exact_float_bits(m) == Some(bits));
            assert(0x10_0000_0000_0000 <= x < 0x20_0000_0000_0000 && m < (1u64 << ((top + 1) as u64)))
                by (bit_vector)
                requires
                    m >> top == 1,
                    top <= 52,
                    s == 52 - top,
                    x == m << s,
            ;
            assert(((bits >> 52) & 0x7ff) == ex && (bits & 0xf_ffff_ffff_ffff) + 0x10_0000_0000_0000
                == x && bits >> 63 == 0) by (bit_vector)
                requires
                    1023 <= ex <= 1075,
                    0x10_0000_0000_0000 <= x < 0x20_0000_0000_0000,
                    bits == ex << 52 | x & 0xf_ffff_ffff_ffff,
            ;
            lemma_shift_one((top + 1) as u64);
            lemma_pow2_adds((top + 1) as nat, s as nat);
            lemma_pow2_pos(s as nat);
            assert(m * pow2(s as nat) < pow2(53)) by (nonlinear_arith)
                requires
                    m < pow2((top + 1) as nat),
                    pow2((top + 1) as nat) * pow2(s as nat) == pow2(53),
                    pow2(s as nat) > 0,
            ;
            lemma_u64_shl_is_mul(m, s);
            assert(x == m * pow2(s as nat));
            assert(float_exponent(bits) == ex);
            assert(float_fraction(bits) + pow2(52) == x);
            assert(float_bits_finite(bits));
            if top == 52 {
                assert(pow2(0) == 1);
                assert(m * pow2(0) == m) by (nonlinear_arith)
                    requires
                        pow2(0) == 1,
                ;
                assert((pow2(52) + float_fraction(bits)) * pow2(0) == m) by (nonlinear_arith)
                    requires
                        pow2(0) == 1,
                        pow2(52) + float_fraction(bits) == m,
                ;
            }
            assert(float_is_whole(bits, m as nat));
        } else {
            let d: u64 = (top - 52) as u64;
            if m & (((1u64 << d) - 1) as u64) == 0 {
                let y: u64 = m >> d;
                let bits: u64 = ex << 52 | y & 0xf_ffff_ffff_ffff;
                assert(exact_float_bits(m) == Some(bits));
                assert(1u64 << d >= 1) by (bit_vector)
                    requires
                        d < 12,
                ;
                assert(0x10_0000_0000_0000 <= y < 0x20_0000_0000_0000 && y << d == m)
                    by (bit_vector)
                    requires
                        m >> top == 1,
                        52 < top < 64,
                        d == top - 52,
                        y == m >> d,
                        m & (((1u64 << d) - 1) as u64) == 0,
                ;
                assert(((bits >> 52) & 0x7ff) == ex && (bits & 0xf_ffff_ffff_ffff)
                    + 0x10_0000_0000_0000 == y && bits >> 63 == 0) by (bit_vector)
                    requires
                        1076 <= ex <= 1086,
                        0x10_0000_0000_0000 <= y < 0x20_0000_0000_0000,
                        bits == ex << 52 | y & 0xf_ffff_ffff_ffff,
                ;
                lemma_u64_shr_is_div(m, d);
                lemma_pow2_pos(d as nat);
                lemma_fundamental_div_mod(m as int, pow2(d as nat) as int);
                assert(y * pow2(d as nat) <= m) by (nonlinear_arith)
                    requires
                        y == m as nat / pow2(d as nat),
                        pow2(d as nat) > 0,
                ;
                lemma_u64_shl_is_mul(y, d);
                assert(m == y * pow2(d as nat));
                assert(float_exponent(bits) == ex);
                assert(float_fraction(bits) + pow2(52) == y);
                assert(float_bits_finite(bits));
                assert(ex - 1075 == d);
                assert(float_is_whole(bits, m as nat));
            }
        }
    }
}

/// No other float stands for a whole number: a finite float that is not
/// negative and whose magnitude is the whole number `m` is the one that
/// stands for `m`. So a whole number has no float exactly where none is
/// computed for it.
pub proof fn law_whole_float_is_the_exact_one(m: u64, bits: u64)
    requires
        bits >> 63 == 0,
        float_bits_finite(bits),
        float_is_whole(bits, m as nat),
    ensures
        exact_float_bits(m) == Some(bits),
{
    lemma2_to64();
    lemma2_to64_rest();
    let e = float_exponent(bits);
    let f = float_fraction(bits);
    assert(bits == e << 52 | f && f < 0x10_0000_0000_0000 && e < 0x7ff) by (bit_vector)
        requires
            bits >> 63 == 0,
            (bits >> 52) & 0x7ff != 0x7ff,
            e == (bits >> 52) & 0x7ff,
            f == bits & 0xf_ffff_ffff_ffff,
    ;
    if e == 0 {
        assert(bits == 0) by (bit_vector)
            requires
                bits == e << 52 | f,
                e == 0,
                f == 0,
        ;
        assert(m == 0);
    } else {
        let y: u64 = (0x10_0000_0000_0000 + f) as u64;
        if e >= 1075 {
            let k = (e - 1075) as nat;
            lemma_pow2_pos(k);
            assert(m == y * pow2(k));
            assert(k <= 11) by {
                if k > 11 {
                    if k > 12 {
                        lemma_pow2_strictly_increases(12, k);
                    }
                    lemma_pow2_adds(52, 12);
                    assert(y * pow2(k) >= pow2(52) * pow2(12)) by (nonlinear_arith)
                        requires
                            y >= pow2(52),
                            pow2(k) >= pow2(12),
                    ;
                }
            }
            let d: u64 = k as u64;
            lemma_u64_shl_is_mul(y, d);
            assert(m == y << d);
            let t: u64 = (52 + d) as u64;
            assert(m != 0 && m >> t == 1 && m >> d == y && (d > 0 ==> 1u64 << d >= 1 && m & (((1u64
                << d) - 1) as u64) == 0) && (d == 0 ==> m << 0 == m)) by (bit_vector)
                requires
                    m == y << d,
                    0x10_0000_0000_0000 <= y < 0x20_0000_0000_0000,
                    d <= 11,
                    t == 52 + d,
            ;
            lemma_top_is(m, t);
            assert(y & 0xf_ffff_ffff_ffff == f) by (bit_vector)
                requires
                    y == 0x10_0000_0000_0000 + f,
                    f < 0x10_0000_0000_0000,
            ;
            assert(1023 + t == e);
            assert(top_bit(m) == t);
            if d == 0 {
                assert(((52 - top_bit(m)) as u64) == 0);
                assert(m == y) by (nonlinear_arith)
                    requires
                        m == y * pow2(k),
                        pow2(k) == 1,
                ;
                assert((m << 0u64) & 0xf_ffff_ffff_ffff == f);
            } else {
                assert(((top_bit(m) - 52) as u64) == d);
                assert((m >> d) & 0xf_ffff_ffff_ffff == f);
            }
            assert(exact_float_bits(m) == Some(bits));
        } else {
            let j = (1075 - e) as nat;
            lemma_pow2_pos(j);
            assert(y == m * pow2(j));
            assert(m >= 1) by (nonlinear_arith)
                requires
                    y == m * pow2(j),
                    y > 0,
            ;
            assert(j <= 52) by {
                if j > 52 {
                    if j > 53 {
                        lemma_pow2_strictly_increases(53, j);
                    }
                    assert(m * pow2(j) >= pow2(53)) by (nonlinear_arith)
                        requires
                            m >= 1,
                            pow2(j) >= pow2(53),
                    ;
                }
            }
            let s: u64 = j as u64;
            lemma_u64_shl_is_mul(m, s);
            assert(y == m << s);
            lemma_u64_shr_is_div(y, s);
            assert(y as nat / pow2(j) == m) by {
                lemma_div_multiples_vanish(m as int, pow2(j) as int);
                assert(m * pow2(j) == pow2(j) * m) by (nonlinear_arith);
            }
            let t: u64 = (52 - s) as u64;
            assert(m >> t == 1) by (bit_vector)
                requires
                    m == y >> s,
                    0x10_0000_0000_0000 <= y < 0x20_0000_0000_0000,
                    1 <= s <= 52,
                    t == 52 - s,
            ;
            lemma_top_is(m, t);
            assert(y & 0xf_ffff_ffff_ffff == f) by (bit_vector)
                requires
                    y == 0x10_0000_0000_0000 + f,
                    f < 0x10_0000_0000_0000,
            ;
            assert(1023 + t == e);
            assert(top_bit(m) == t);
            assert(((52 - top_bit(m)) as u64) == s);
            assert((m << s) & 0xf_ffff_ffff_ffff == f);
            assert(exact_float_bits(m) == Some(bits));
        }
    }
}

/// The highest bit that is set is the one above which nothing is set.
proof fn lemma_top_is(m: u64, t: u64)
    requires
        t < 64,
        m >> t == 1,
    ensures
        m != 0,
        top_bit(m) == t,
{
    assert(m != 0) by (bit_vector)
        requires
            t < 64,
            m >> t == 1,
    ;
    lemma_top_bit(m);
    let top = top_bit(m);
    assert(top == t) by (bit_vector)
        requires
            t < 64,
            top < 64,
            m >> t == 1,
            m >> top == 1,
    ;
}

/// The magnitude of a finite float, scaled by `2^1074` so that it is a whole
/// number: `(2^52 + f) * 2^(e - 1)` for the exponent field `e` above zero and
/// the fraction field `f`, and `f` alone for the exponent field zero.
pub open spec fn float_scaled_magnitude(bits: u64) -> nat {
    let e = float_exponent(bits) as nat;
    let f = float_fraction(bits) as nat;
    if e == 0 {
        f
    } else {
        (pow2(52) + f) * pow2((e - 1) as nat)
    }
}

/// The value of a finite float, scaled by `2^1074`.
pub open spec fn float_scaled(bits: u64) -> int {
    if bits >> 63 == 1 {
        -(float_scaled_magnitude(bits) as int)
    } else {
        float_scaled_magnitude(bits) as int
    }
}

/// Among patterns without a sign, the greater pattern is the greater float.
proof fn lemma_magnitude_grows(p: u64, q: u64)
    requires
        p < q,
        q >> 63 == 0,
    ensures
        float_scaled_magnitude(p) < float_scaled_magnitude(q),
{
    lemma2_to64();
    lemma2_to64_rest();
    let ep = float_exponent(p);
    let fp = float_fraction(p);
    let eq = float_exponent(q);
    let fq = float_fraction(q);
    assert((ep < eq || (ep == eq && fp < fq)) && fp < 0x10_0000_0000_0000 && fq
        < 0x10_0000_0000_0000) by (bit_vector)
        requires
            p < q,
            q >> 63 == 0,
            ep == (p >> 52) & 0x7ff,
            fp == p & 0xf_ffff_ffff_ffff,
            eq == (q >> 52) & 0x7ff,
            fq == q & 0xf_ffff_ffff_ffff,
    ;
    if ep == eq {
        if ep != 0 {
            let scale = pow2((ep - 1) as nat);
            lemma_pow2_pos((ep - 1) as nat);
            assert((pow2(52) + fp) * scale < (pow2(52) + fq) * scale) by (nonlinear_arith)
                requires
                    fp < fq,
                    scale > 0,
            ;
        }
    } else {
        let high = pow2((eq - 1) as nat);
        lemma_pow2_pos((eq - 1) as nat);
        assert(pow2(52) * high <= (pow2(52) + fq) * high) by (nonlinear_arith)
            requires
                high > 0,
                fq >= 0,
        ;
        assert(pow2(52) * 1 <= pow2(52) * high) by (nonlinear_arith)
            requires
                high >= 1,
        ;
        if ep != 0 {
            let low = pow2((ep - 1) as nat);
            lemma_pow2_pos((ep - 1) as nat);
            lemma_pow2_adds((ep - 1) as nat, 1);
            if ep < eq - 1 {
                lemma_pow2_strictly_increases(ep as nat, (eq - 1) as nat);
            }
            assert((pow2(52) + fp) * low < pow2(52) * (low * 2)) by (nonlinear_arith)
                requires
                    fp < pow2(52),
                    low > 0,
            ;
            assert(pow2(52) * (low * 2) <= pow2(52) * high) by (nonlinear_arith)
                requires
                    low * 2 <= high,
            ;
        }
    }
}

/// The key orders finite floats as their values order them: one float is
/// below another exactly where its key is below the other's key, and two
/// floats are the same number exactly where their keys are equal.
pub proof fn law_key_orders_as_values(a: u64, b: u64)
    ensures
        float_key(a) < float_key(b) <==> float_scaled(a) < float_scaled(b),
        float_key(a) == float_key(b) <==> float_scaled(a) == float_scaled(b),
{
    let p: u64 = a & 0x7fff_ffff_ffff_ffff;
    let q: u64 = b & 0x7fff_ffff_ffff_ffff;
    assert(p >> 63 == 0 && q >> 63 == 0 && (p >> 52) & 0x7ff == (a >> 52) & 0x7ff && p
        & 0xf_ffff_ffff_ffff == a & 0xf_ffff_ffff_ffff && (q >> 52) & 0x7ff == (b >> 52) & 0x7ff && q
        & 0xf_ffff_ffff_ffff == b & 0xf_ffff_ffff_ffff && (a >> 63 == 0 || a >> 63 == 1) && (b >> 63
        == 0 || b >> 63 == 1)) by (bit_vector)
        requires
            p == a & 0x7fff_ffff_ffff_ffff,
            q == b & 0x7fff_ffff_ffff_ffff,
    ;
    assert(float_scaled_magnitude(a) == float_scaled_magnitude(p));
    assert(float_scaled_magnitude(b) == float_scaled_magnitude(q));
    assert((0u64 >> 52) & 0x7ff == 0 && 0u64 & 0xf_ffff_ffff_ffff == 0) by (bit_vector);
    assert(float_scaled_magnitude(0) == 0);
    if p < q {
        lemma_magnitude_grows(p, q);
    }
    if q < p {
        lemma_magnitude_grows(q, p);
    }
    if 0 < p {
        lemma_magnitude_grows(0, p);
    }
    if 0 < q {
        lemma_magnitude_grows(0, q);
    }
}

} // verus!
