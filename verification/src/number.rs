//! Numbers as JSON knows them: an unsigned integer, a negative integer, or a
//! finite binary64 float. A float travels as its IEEE-754 bit pattern, so that
//! every operation here is integer arithmetic.

use vstd::prelude::*;
use crate::float_bits::float_bits_finite;
use crate::float_bits::float_key;
use crate::float_bits::float_key_of;
use crate::float_bits::exact_float_bits;
use crate::float_bits::exact_float_of;
use crate::float_bits::float_is_whole;
use crate::float_bits::law_exact_float_is_the_integer;
use crate::float_bits::law_whole_float_is_the_exact_one;
use vstd::std_specs::cmp::PartialEqSpecImpl;
use vstd::std_specs::cmp::PartialOrdSpecImpl;
use std::cmp::Ordering;

verus! {

/// The shape and payload of a number. `Float` holds the IEEE-754 binary64 bit
/// pattern of the value.
#[derive(Copy, Clone)]
pub enum NumericTerm {
    PosInt(u64),
    /// Always less than zero.
    NegInt(i64),
    /// Always finite.
    Float(u64),
}

impl NumericTerm {
    /// The invariant of a stored number.
    pub open spec fn wf(self) -> bool {
        match self {
            NumericTerm::PosInt(_) => true,
            NumericTerm::NegInt(i) => i < 0,
            NumericTerm::Float(bits) => float_bits_finite(bits),
        }
    }

    /// The integer that an integer term stands for.
    pub open spec fn int_value(self) -> Option<int> {
        match self {
            NumericTerm::PosInt(u) => Some(u as int),
            NumericTerm::NegInt(i) => Some(i as int),
            NumericTerm::Float(_) => None,
        }
    }

    /// What `as_i64` returns: the integer, where it lies between `i64::MIN` and
    /// `i64::MAX`.
    pub open spec fn i64_value(self) -> Option<i64> {
        match self {
            NumericTerm::PosInt(v) => if v <= i64::MAX {
                Some(v as i64)
            } else {
                None
            },
            NumericTerm::NegInt(i) => Some(i),
            NumericTerm::Float(_) => None,
        }
    }

    /// What `as_f64` returns: the bit pattern of the stored float, and for an
    /// integer that of the float that is exactly the integer, where there is
    /// one.
    pub open spec fn float_value(self) -> Option<u64> {
        match self {
            NumericTerm::PosInt(u) => exact_float_bits(u),
            NumericTerm::NegInt(i) => match exact_float_bits((-(i as int)) as u64) {
                Some(bits) => Some(bits | 0x8000_0000_0000_0000),
                None => None,
            },
            NumericTerm::Float(bits) => Some(bits),
        }
    }

    /// What `as_u64` returns: the integer, where it is stored unsigned.
    pub open spec fn u64_value(self) -> Option<u64> {
        match self {
            NumericTerm::PosInt(v) => Some(v),
            _ => None,
        }
    }

    /// Equality within one variant; terms of different variants are never equal.
    /// Floats are equal when they encode the same value, so the two zeros are.
    pub open spec fn same(self, other: NumericTerm) -> bool {
        match (self, other) {
            (NumericTerm::PosInt(a), NumericTerm::PosInt(b)) => a == b,
            (NumericTerm::NegInt(a), NumericTerm::NegInt(b)) => a == b,
            (NumericTerm::Float(a), NumericTerm::Float(b)) => float_key(a) == float_key(b),
            _ => false,
        }
    }

    /// Strict order within one variant; terms of different variants are unordered.
    pub open spec fn below(self, other: NumericTerm) -> bool {
        match (self, other) {
            (NumericTerm::PosInt(a), NumericTerm::PosInt(b)) => a < b,
            (NumericTerm::NegInt(a), NumericTerm::NegInt(b)) => a < b,
            (NumericTerm::Float(a), NumericTerm::Float(b)) => float_key(a) < float_key(b),
            _ => false,
        }
    }
}

/// The term that stands for an integer: unsigned from zero up to `u64::MAX`,
/// negative down to `i64::MIN`, none beyond.
pub open spec fn term_of_int(i: int) -> Option<NumericTerm> {
    if 0 <= i <= u64::MAX {
        Some(NumericTerm::PosInt(i as u64))
    } else if i64::MIN <= i < 0 {
        Some(NumericTerm::NegInt(i as i64))
    } else {
        None
    }
}

/// The term that stands for the float with the given bit pattern: none for an
/// infinity or a NaN.
pub open spec fn term_of_float(bits: u64) -> Option<NumericTerm> {
    if float_bits_finite(bits) {
        Some(NumericTerm::Float(bits))
    } else {
        None
    }
}

/// Represents a number, whether integer or floating point. A negative integer
/// is always below zero and a float is always finite.
pub struct Number {
    n: NumericTerm,
}

impl Clone for Number {
    fn clone(&self) -> (r: Self)
        ensures
            r@ == self@,
    {
        proof {
            use_type_invariant(self);
        }
        Number { n: self.n }
    }
}

impl View for Number {
    type V = NumericTerm;

    closed spec fn view(&self) -> NumericTerm {
        self.n
    }
}

impl Number {
    #[verifier::type_invariant]
    closed spec fn inv(&self) -> bool {
        self.n.wf()
    }


    /// Returns true if the number is an integer between `i64::MIN` and
    /// `i64::MAX`, which is exactly when `as_i64` returns the integer.
    pub fn is_i64(&self) -> (r: bool)
        ensures
            r == match self@ {
                NumericTerm::PosInt(v) => v <= i64::MAX,
                NumericTerm::NegInt(_) => true,
                NumericTerm::Float(_) => false,
            },
    {
        match self.n {
            NumericTerm::PosInt(v) => v <= 0x7fff_ffff_ffff_ffff,
            NumericTerm::NegInt(_) => true,
            NumericTerm::Float(_) => false,
        }
    }

    /// Returns true if the number is an integer between zero and `u64::MAX`.
    pub fn is_u64(&self) -> (r: bool)
        ensures
            r == (self@ is PosInt),
    {
        match self.n {
            NumericTerm::PosInt(_) => true,
            NumericTerm::NegInt(_) | NumericTerm::Float(_) => false,
        }
    }

    /// Returns true if the number is stored as a float.
    pub fn is_f64(&self) -> (r: bool)
        ensures
            r == (self@ is Float),
    {
        match self.n {
            NumericTerm::Float(_) => true,
            NumericTerm::PosInt(_) | NumericTerm::NegInt(_) => false,
        }
    }

    /// The integer as `i64`, if it is an integer that fits.
    pub fn as_i64(&self) -> (r: Option<i64>)
        ensures
            r == self@.i64_value(),
    {
        match self.n {
            NumericTerm::PosInt(n) => {
                if n <= 0x7fff_ffff_ffff_ffff {
                    Some(n as i64)
                } else {
                    None
                }
            },
            NumericTerm::NegInt(n) => Some(n),
            NumericTerm::Float(_) => None,
        }
    }

    /// The integer as `u64`, if it is an unsigned integer.
    pub fn as_u64(&self) -> (r: Option<u64>)
        ensures
            r == self@.u64_value(),
    {
        match self.n {
            NumericTerm::PosInt(n) => Some(n),
            NumericTerm::NegInt(_) | NumericTerm::Float(_) => None,
        }
    }

    /// The integer as `i128`, if the number is an integer.
    pub fn as_i128(&self) -> (r: Option<i128>)
        ensures
            r is Some <==> !(self@ is Float),
            r is Some ==> self@.int_value() == Some(r->0 as int),
            self@.wf(),
    {
        proof {
            use_type_invariant(self);
        }
        match self.n {
            NumericTerm::PosInt(n) => Some(n as i128),
            NumericTerm::NegInt(n) => Some(n as i128),
            NumericTerm::Float(_) => None,
        }
    }

    /// The integer as `u128`, if the number is an unsigned integer.
    pub fn as_u128(&self) -> (r: Option<u128>)
        ensures
            r == match self@ {
                NumericTerm::PosInt(v) => Some(v as u128),
                _ => None::<u128>,
            },
    {
        match self.n {
            NumericTerm::PosInt(n) => Some(n as u128),
            NumericTerm::NegInt(_) | NumericTerm::Float(_) => None,
        }
    }

    /// Builds a number from an `i128`. Integers below `i64::MIN` or above
    /// `u64::MAX` have no representation and give `None`.
    pub fn from_i128(i: i128) -> (r: Option<Number>)
        ensures
            r is Some <==> i64::MIN <= i <= u64::MAX,
            r matches Some(n) ==> Some(n@) == term_of_int(i as int),
            r is None ==> term_of_int(i as int) is None,
    {
        if 0 <= i && i <= 0xffff_ffff_ffff_ffff {
            Some(Number { n: NumericTerm::PosInt(i as u64) })
        } else if -0x8000_0000_0000_0000 <= i && i < 0 {
            Some(Number { n: NumericTerm::NegInt(i as i64) })
        } else {
            None
        }
    }

    /// Builds a number from a `u128`. Integers above `u64::MAX` have no
    /// representation and give `None`.
    pub fn from_u128(i: u128) -> (r: Option<Number>)
        ensures
            r is Some <==> i <= u64::MAX,
            r matches Some(n) ==> Some(n@) == term_of_int(i as int),
            r is None ==> term_of_int(i as int) is None,
    {
        if i <= 0xffff_ffff_ffff_ffff {
            Some(Number { n: NumericTerm::PosInt(i as u64) })
        } else {
            None
        }
    }

    /// Builds a number from the bit pattern of a binary64 float. Infinite and
    /// NaN patterns are not JSON numbers and give `None`.
    pub fn from_f64(bits: u64) -> (r: Option<Number>)
        ensures
            r is Some <==> float_bits_finite(bits),
            r matches Some(n) ==> Some(n@) == term_of_float(bits),
            r is None ==> term_of_float(bits) is None,
    {
        if (bits >> 52) & 0x7ff != 0x7ff {
            Some(Number { n: NumericTerm::Float(bits) })
        } else {
            None
        }
    }

    /// The number as a float, where a float holds it without loss: the bit
    /// pattern of the stored float, or of the float that is exactly the stored
    /// integer. An integer that no float holds exactly gives `None`.
    pub fn as_f64(&self) -> (r: Option<u64>)
        ensures
            r == self@.float_value(),
            r matches Some(bits) ==> float_bits_finite(bits),
    {
        proof {
            use_type_invariant(self);
        }
        match self.n {
            NumericTerm::PosInt(u) => exact_float_of(u),
            NumericTerm::NegInt(i) => {
                let magnitude: u64 = (-(i as i128)) as u64;
                match exact_float_of(magnitude) {
                    Some(bits) => {
                        assert(((bits >> 52) & 0x7ff != 0x7ff) ==> (((bits | 0x8000_0000_0000_0000)
                            >> 52) & 0x7ff != 0x7ff)) by (bit_vector);
                        Some(bits | 0x8000_0000_0000_0000)
                    },
                    None => None,
                }
            },
            NumericTerm::Float(bits) => Some(bits),
        }
    }

    /// The 64-bit word that stands for this number when it is hashed. Equal
    /// numbers give equal words: the two float zeros both give the pattern of
    /// `+0.0`.
    pub fn hash_word(&self) -> (w: u64)
        ensures
            w == hash_word_of(self@),
    {
        match self.n {
            NumericTerm::PosInt(i) => i,
            NumericTerm::NegInt(i) => i as u64,
            NumericTerm::Float(bits) => {
                if bits & 0x7fff_ffff_ffff_ffff == 0 {
                    0
                } else {
                    bits
                }
            },
        }
    }

    /// The text of the number: plain decimal for an integer. Printing a float
    /// is the caller's part: `float_text` is the text of the stored float, and
    /// is returned as it is when the number is one.
    pub fn to_string_with(&self, float_text: &str) -> (s: String)
        ensures
            s@ == number_text(self@, float_text@),
    {
        match self.n {
            NumericTerm::PosInt(u) => format_unsigned(u),
            NumericTerm::NegInt(i) => format_signed(i),
            NumericTerm::Float(_) => String::from_str(float_text),
        }
    }
}

/// What `hash_word` returns.
pub open spec fn hash_word_of(t: NumericTerm) -> u64 {
    match t {
        NumericTerm::PosInt(i) => i,
        NumericTerm::NegInt(i) => i as u64,
        NumericTerm::Float(bits) => if bits & 0x7fff_ffff_ffff_ffff == 0 {
            0
        } else {
            bits
        },
    }
}

/// The character of one decimal digit.
pub open spec fn digit_char(d: nat) -> char {
    if d == 0 {
        '0'
    } else if d == 1 {
        '1'
    } else if d == 2 {
        '2'
    } else if d == 3 {
        '3'
    } else if d == 4 {
        '4'
    } else if d == 5 {
        '5'
    } else if d == 6 {
        '6'
    } else if d == 7 {
        '7'
    } else if d == 8 {
        '8'
    } else {
        '9'
    }
}

/// The decimal digits of a natural number, most significant first, without
/// leading zeros.
pub open spec fn decimal_digits(n: nat) -> Seq<char>
    decreases n,
{
    if n < 10 {
        seq![digit_char(n)]
    } else {
        decimal_digits(n / 10).push(digit_char(n % 10))
    }
}

/// The decimal text of an integer: a minus sign for a negative one, then the
/// digits of its magnitude.
pub open spec fn decimal_text(i: int) -> Seq<char> {
    if i < 0 {
        seq!['-'] + decimal_digits((-i) as nat)
    } else {
        decimal_digits(i as nat)
    }
}

/// The text of a number, given the text of its float where it is one.
pub open spec fn number_text(t: NumericTerm, float_text: Seq<char>) -> Seq<char> {
    match t {
        NumericTerm::PosInt(u) => decimal_text(u as int),
        NumericTerm::NegInt(i) => decimal_text(i as int),
        NumericTerm::Float(_) => float_text,
    }
}

/// `itoa::Buffer::format` of a `u64`: the integer in decimal, without sign or
/// padding.
#[verifier::external_body]
fn format_unsigned(u: u64) -> (s: String)
    ensures
        s@ == decimal_text(u as int),
{
    itoa::Buffer::new().format(u).to_string()
}

/// `itoa::Buffer::format` of an `i64`: the magnitude of the integer in
/// decimal, after a minus sign where the integer is negative.
#[verifier::external_body]
fn format_signed(i: i64) -> (s: String)
    ensures
        s@ == decimal_text(i as int),
{
    itoa::Buffer::new().format(i).to_string()
}

impl NumericTerm {
    /// How two terms compare: within one variant by value, across variants not
    /// at all.
    pub open spec fn order(self, other: NumericTerm) -> Option<Ordering> {
        if self.below(other) {
            Some(Ordering::Less)
        } else if other.below(self) {
            Some(Ordering::Greater)
        } else if self.same(other) {
            Some(Ordering::Equal)
        } else {
            None
        }
    }
}

impl PartialEq for Number {
    fn eq(&self, other: &Self) -> (r: bool) {
        match (self.n, other.n) {
            (NumericTerm::PosInt(a), NumericTerm::PosInt(b)) => a == b,
            (NumericTerm::NegInt(a), NumericTerm::NegInt(b)) => a == b,
            (NumericTerm::Float(a), NumericTerm::Float(b)) => float_key_of(a) == float_key_of(b),
            _ => false,
        }
    }
}

impl PartialEqSpecImpl for Number {
    open spec fn obeys_eq_spec() -> bool {
        true
    }

    open spec fn eq_spec(&self, other: &Self) -> bool {
        self@.same(other@)
    }
}

impl Eq for Number {

}

impl PartialOrd for Number {
    fn partial_cmp(&self, other: &Self) -> (r: Option<Ordering>) {
        match (self.n, other.n) {
            (NumericTerm::PosInt(a), NumericTerm::PosInt(b)) => {
                if a < b {
                    Some(Ordering::Less)
                } else if a > b {
                    Some(Ordering::Greater)
                } else {
                    Some(Ordering::Equal)
                }
            },
            (NumericTerm::NegInt(a), NumericTerm::NegInt(b)) => {
                if a < b {
                    Some(Ordering::Less)
                } else if a > b {
                    Some(Ordering::Greater)
                } else {
                    Some(Ordering::Equal)
                }
            },
            (NumericTerm::Float(a), NumericTerm::Float(b)) => {
                let ka: i128 = float_key_of(a);
                let kb: i128 = float_key_of(b);
                if ka < kb {
                    Some(Ordering::Less)
                } else if ka > kb {
                    Some(Ordering::Greater)
                } else {
                    Some(Ordering::Equal)
                }
            },
            _ => None,
        }
    }
}

impl PartialOrdSpecImpl for Number {
    open spec fn obeys_partial_cmp_spec() -> bool {
        true
    }

    open spec fn partial_cmp_spec(&self, other: &Self) -> Option<Ordering> {
        self@.order(other@)
    }
}

/// An unsigned integer is always read back by `as_u64`, and by `as_i64` exactly
/// when it is at most `i64::MAX`.
pub proof fn law_unsigned_read_back(i: int)
    requires
        0 <= i <= u64::MAX,
    ensures
        term_of_int(i) matches Some(t) && t.wf() && t.u64_value() == Some(i as u64) && (
        t.i64_value() is Some <==> i <= i64::MAX) && (t.i64_value() matches Some(v) ==> v == i),
{
}

/// Every integer that has a term is read back from it unchanged, and the term
/// meets the invariant.
pub proof fn law_integer_read_back(i: int)
    requires
        i64::MIN <= i <= u64::MAX,
    ensures
        term_of_int(i) matches Some(t) && t.wf() && t.int_value() == Some(i),
{
}

/// A finite float that is stored is read back bit for bit, and a float that is
/// not finite is not stored.
pub proof fn law_float_read_back(bits: u64)
    ensures
        float_bits_finite(bits) ==> (term_of_float(bits) matches Some(t) && t.wf()
            && t.float_value() == Some(bits)),
        !float_bits_finite(bits) ==> term_of_float(bits) is None,
{
}

/// Equal numbers hash alike.
pub proof fn law_equal_terms_hash_alike(a: NumericTerm, b: NumericTerm)
    requires
        a.same(b),
    ensures
        hash_word_of(a) == hash_word_of(b),
{
    match (a, b) {
        (NumericTerm::Float(x), NumericTerm::Float(y)) => {
            assert(float_key(x) == float_key(y) ==> (x == y || (x & 0x7fff_ffff_ffff_ffff == 0 && y
                & 0x7fff_ffff_ffff_ffff == 0))) by {
                lemma_key_decides_bits(x, y);
            }
        },
        _ => {},
    }
}

/// Two bit patterns with one key are the same pattern, or are the two zeros.
proof fn lemma_key_decides_bits(x: u64, y: u64)
    requires
        float_key(x) == float_key(y),
    ensures
        x == y || (x & 0x7fff_ffff_ffff_ffff == 0 && y & 0x7fff_ffff_ffff_ffff == 0),
{
    let mx = x & 0x7fff_ffff_ffff_ffff;
    let my = y & 0x7fff_ffff_ffff_ffff;
    assert(mx == my);
    assert(x >> 63 == 0 || x >> 63 == 1) by (bit_vector);
    assert(y >> 63 == 0 || y >> 63 == 1) by (bit_vector);
    assert((x & 0x7fff_ffff_ffff_ffff) == (y & 0x7fff_ffff_ffff_ffff) && (x >> 63) == (y >> 63)
        ==> x == y) by (bit_vector);
}

/// The digit that a character stands for, if it is a decimal digit.
pub open spec fn digit_value(c: char) -> Option<nat> {
    if c == '0' {
        Some(0)
    } else if c == '1' {
        Some(1)
    } else if c == '2' {
        Some(2)
    } else if c == '3' {
        Some(3)
    } else if c == '4' {
        Some(4)
    } else if c == '5' {
        Some(5)
    } else if c == '6' {
        Some(6)
    } else if c == '7' {
        Some(7)
    } else if c == '8' {
        Some(8)
    } else if c == '9' {
        Some(9)
    } else {
        None
    }
}

/// The natural number that a text of decimal digits reads as, or `None`
/// where the text is empty or holds anything but digits.
pub open spec fn digits_value(s: Seq<char>) -> Option<nat>
    decreases s.len(),
{
    if s.len() == 0 {
        None
    } else if s.len() == 1 {
        digit_value(s[0])
    } else {
        match (digits_value(s.drop_last()), digit_value(s.last())) {
            (Some(high), Some(low)) => Some(high * 10 + low),
            _ => None,
        }
    }
}

/// The integer that a decimal text reads as: digits, after a minus sign for a
/// negative one.
pub open spec fn decimal_value(s: Seq<char>) -> Option<int> {
    if s.len() > 0 && s[0] == '-' {
        match digits_value(s.drop_first()) {
            Some(v) => Some(-(v as int)),
            None => None,
        }
    } else {
        match digits_value(s) {
            Some(v) => Some(v as int),
            None => None,
        }
    }
}

/// The digits of a number read back as the number, and begin with a digit.
pub proof fn lemma_digits_read_back(n: nat)
    ensures
        decimal_digits(n).len() >= 1,
        digit_value(decimal_digits(n)[0]) is Some,
        digits_value(decimal_digits(n)) == Some(n),
    decreases n,
{
    if n >= 10 {
        lemma_digits_read_back(n / 10);
        let high = decimal_digits(n / 10);
        let all = high.push(digit_char(n % 10));
        assert(all.drop_last() =~= high);
        assert(all.last() == digit_char(n % 10));
        assert(all[0] == high[0]);
    }
}

/// The text of an integer reads back as the same integer.
pub proof fn law_integer_text_reads_back(i: int)
    ensures
        decimal_value(decimal_text(i)) == Some(i),
{
    if i < 0 {
        let digits = decimal_digits((-i) as nat);
        lemma_digits_read_back((-i) as nat);
        let all = seq!['-'] + digits;
        assert(all[0] == '-');
        assert(all.drop_first() =~= digits);
    } else {
        lemma_digits_read_back(i as nat);
    }
}

/// The text of an integer number reads back as the integer that the number
/// holds.
pub proof fn law_number_text_reads_back(t: NumericTerm, float_text: Seq<char>)
    requires
        !(t is Float),
    ensures
        decimal_value(number_text(t, float_text)) == t.int_value(),
{
    match t {
        NumericTerm::PosInt(u) => law_integer_text_reads_back(u as int),
        NumericTerm::NegInt(i) => law_integer_text_reads_back(i as int),
        NumericTerm::Float(_) => {},
    }
}

/// The magnitude of an integer term.
pub open spec fn magnitude(t: NumericTerm) -> nat {
    match t {
        NumericTerm::PosInt(u) => u as nat,
        NumericTerm::NegInt(i) => (-(i as int)) as nat,
        NumericTerm::Float(_) => 0,
    }
}

/// An integer is read as a float without loss, or not at all: the float that
/// `as_f64` gives for an integer is finite, has the sign of the integer and
/// its magnitude; and where it gives none, no finite float has that
/// magnitude.
pub proof fn law_integer_as_float_is_exact(t: NumericTerm)
    requires
        t.wf(),
        !(t is Float),
    ensures
        match t.float_value() {
            Some(bits) => float_bits_finite(bits) && (bits >> 63 == 1 <==> t is NegInt)
                && float_is_whole(bits & 0x7fff_ffff_ffff_ffff, magnitude(t)),
            None => forall|bits: u64|
                bits >> 63 == 0 && float_bits_finite(bits) ==> !float_is_whole(bits, magnitude(t)),
        },
{
    let m: u64 = magnitude(t) as u64;
    law_exact_float_is_the_integer(m);
    match exact_float_bits(m) {
        Some(bits) => {
            assert(bits & 0x7fff_ffff_ffff_ffff == bits && (bits | 0x8000_0000_0000_0000)
                & 0x7fff_ffff_ffff_ffff == bits && (bits | 0x8000_0000_0000_0000) >> 63 == 1 && (((bits
                | 0x8000_0000_0000_0000) >> 52) & 0x7ff) == ((bits >> 52) & 0x7ff)) by (bit_vector)
                requires
                    bits >> 63 == 0,
            ;
        },
        None => {
            assert forall|bits: u64| bits >> 63 == 0 && float_bits_finite(bits) implies !float_is_whole(
                bits,
                magnitude(t),
            ) by {
                if float_is_whole(bits, magnitude(t)) {
                    law_whole_float_is_the_exact_one(m, bits);
                }
            }
        },
    }
}

/// Equality and order agree: two terms are equal exactly where they are
/// ordered as equal, and terms of different variants are neither equal nor
/// ordered.
pub proof fn law_number_order_agrees_with_equality(a: NumericTerm, b: NumericTerm)
    ensures
        a.same(b) <==> a.order(b) == Some(Ordering::Equal),
        a.below(b) <==> a.order(b) == Some(Ordering::Less),
        b.below(a) <==> a.order(b) == Some(Ordering::Greater),
        a.order(b) is None <==> !((a is PosInt && b is PosInt) || (a is NegInt && b is NegInt) || (
        a is Float && b is Float)),
{
}

} // verus!
