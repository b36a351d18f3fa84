//! The scalar values a query can compare against: null, a boolean, a number or
//! a string.

use vstd::prelude::*;
use vstd::std_specs::cmp::PartialEqSpecImpl;
use vstd::std_specs::cmp::PartialOrdSpecImpl;
use std::cmp::Ordering;
use crate::number::Number;
use crate::number::NumericTerm;
use crate::number::number_text;
use crate::number::hash_word_of;
use crate::number::law_equal_terms_hash_alike;
use crate::text::text_words;
use crate::text::byte_words;
use crate::text::text_below;
use crate::text::is_text_below;
use crate::text::law_text_order_is_total;
use crate::number::law_number_order_agrees_with_equality;

verus! {

/// Represents any scalar value of a query.
pub enum QueryLiteral {
    Null,
    Bool(bool),
    Number(Number),
    String(String),
}

/// What a literal holds.
pub enum LiteralValue {
    Null,
    Bool(bool),
    Number(NumericTerm),
    String(Seq<char>),
}

impl LiteralValue {
    /// Equality within one variant; values of different variants are never equal.
    pub open spec fn same(self, other: LiteralValue) -> bool {
        match (self, other) {
            (LiteralValue::Null, LiteralValue::Null) => true,
            (LiteralValue::Bool(a), LiteralValue::Bool(b)) => a == b,
            (LiteralValue::Number(a), LiteralValue::Number(b)) => a.same(b),
            (LiteralValue::String(a), LiteralValue::String(b)) => a == b,
            _ => false,
        }
    }

    /// How two values compare: within one variant by value (`false` before
    /// `true`, numbers as numbers, strings as `str` orders them), across
    /// variants not at all.
    pub open spec fn order(self, other: LiteralValue) -> Option<Ordering> {
        match (self, other) {
            (LiteralValue::Null, LiteralValue::Null) => Some(Ordering::Equal),
            (LiteralValue::Bool(a), LiteralValue::Bool(b)) => if a == b {
                Some(Ordering::Equal)
            } else if b {
                Some(Ordering::Less)
            } else {
                Some(Ordering::Greater)
            },
            (LiteralValue::Number(a), LiteralValue::Number(b)) => a.order(b),
            (LiteralValue::String(a), LiteralValue::String(b)) => if text_below(a, b) {
                Some(Ordering::Less)
            } else if text_below(b, a) {
                Some(Ordering::Greater)
            } else {
                Some(Ordering::Equal)
            },
            _ => None,
        }
    }

    /// The words that a value is hashed as: one word for the variant, then
    /// nothing for null, one word for a boolean, the hash word of a number, or
    /// the bytes of a string. Equal values have the same words.
    pub open spec fn hash_words(self) -> Seq<u64> {
        match self {
            LiteralValue::Null => seq![0u64],
            LiteralValue::Bool(b) => seq![1u64, if b {
                1u64
            } else {
                0u64
            }],
            LiteralValue::Number(n) => seq![2u64, hash_word_of(n)],
            LiteralValue::String(s) => seq![3u64] + text_words(s),
        }
    }

    /// The diagnostic text of a value: the variant's name, and in brackets what
    /// it holds. `float_text` is the text of the number where it is a float.
    pub open spec fn text(self, float_text: Seq<char>) -> Seq<char> {
        match self {
            LiteralValue::Null => "Null"@,
            LiteralValue::Bool(b) => if b {
                "Bool(true)"@
            } else {
                "Bool(false)"@
            },
            LiteralValue::Number(n) => "Number("@ + number_text(n, float_text) + ")"@,
            LiteralValue::String(s) => "String("@ + quoted_text(s) + ")"@,
        }
    }
}

impl View for QueryLiteral {
    type V = LiteralValue;

    open spec fn view(&self) -> LiteralValue {
        match self {
            QueryLiteral::Null => LiteralValue::Null,
            QueryLiteral::Bool(b) => LiteralValue::Bool(*b),
            QueryLiteral::Number(n) => LiteralValue::Number(n@),
            QueryLiteral::String(s) => LiteralValue::String(s@),
        }
    }
}

/// A text as `std` prints it for debugging: in double quotes, with the
/// characters that need it escaped.
pub uninterp spec fn quoted_text(s: Seq<char>) -> Seq<char>;

/// `format!("{:?}", s)` on a `str`: the text in double quotes, escaped as
/// `std`'s `Debug` for `str` escapes it. The result depends on the text alone.
#[verifier::external_body]
fn quote_text(s: &str) -> (r: String)
    ensures
        r@ == quoted_text(s@),
{
    format!("{:?}", s)
}

impl Clone for QueryLiteral {
    fn clone(&self) -> (r: Self)
        ensures
            r@ == self@,
    {
        match self {
            QueryLiteral::Null => QueryLiteral::Null,
            QueryLiteral::Bool(b) => QueryLiteral::Bool(*b),
            QueryLiteral::Number(n) => QueryLiteral::Number(n.clone()),
            QueryLiteral::String(s) => QueryLiteral::String(s.clone()),
        }
    }
}

impl QueryLiteral {
    /// Returns true if the literal is a string, which is exactly when `as_str`
    /// returns it.
    pub fn is_string(&self) -> (r: bool)
        ensures
            r == (self@ is String),
    {
        self.as_str().is_some()
    }

    /// If the literal is a string, returns it.
    pub fn as_str(&self) -> (r: Option<&str>)
        ensures
            r is Some <==> self@ is String,
            r matches Some(s) ==> self@ == LiteralValue::String(s@),
    {
        match self {
            QueryLiteral::String(s) => Some(s.as_str()),
            _ => None,
        }
    }

    /// Returns true if the literal is a number.
    pub fn is_number(&self) -> (r: bool)
        ensures
            r == (self@ is Number),
    {
        match self {
            QueryLiteral::Number(_) => true,
            _ => false,
        }
    }

    /// If the literal is a number, returns it.
    pub fn as_number(&self) -> (r: Option<&Number>)
        ensures
            r is Some <==> self@ is Number,
            r matches Some(n) ==> self@ == LiteralValue::Number(n@),
    {
        match self {
            QueryLiteral::Number(number) => Some(number),
            _ => None,
        }
    }

    /// Returns true if the literal is an integer between `i64::MIN` and
    /// `i64::MAX`.
    pub fn is_i64(&self) -> (r: bool)
        ensures
            r == (self@ matches LiteralValue::Number(n) && n.i64_value() is Some),
    {
        match self {
            QueryLiteral::Number(n) => n.is_i64(),
            _ => false,
        }
    }

    /// Returns true if the literal is an integer between zero and `u64::MAX`.
    pub fn is_u64(&self) -> (r: bool)
        ensures
            r == (self@ matches LiteralValue::Number(n) && n.u64_value() is Some),
    {
        match self {
            QueryLiteral::Number(n) => n.is_u64(),
            _ => false,
        }
    }

    /// Returns true if the literal is a number stored as a float.
    pub fn is_f64(&self) -> (r: bool)
        ensures
            r == (self@ matches LiteralValue::Number(n) && n is Float),
    {
        match self {
            QueryLiteral::Number(n) => n.is_f64(),
            _ => false,
        }
    }

    /// If the literal is an integer that fits, returns it as `i64`.
    pub fn as_i64(&self) -> (r: Option<i64>)
        ensures
            r == match self@ {
                LiteralValue::Number(n) => n.i64_value(),
                _ => None,
            },
    {
        match self {
            QueryLiteral::Number(n) => n.as_i64(),
            _ => None,
        }
    }

    /// If the literal is an unsigned integer, returns it as `u64`.
    pub fn as_u64(&self) -> (r: Option<u64>)
        ensures
            r == match self@ {
                LiteralValue::Number(n) => n.u64_value(),
                _ => None,
            },
    {
        match self {
            QueryLiteral::Number(n) => n.as_u64(),
            _ => None,
        }
    }

    /// If the literal is a number that a float holds exactly, returns the bit
    /// pattern of that float.
    pub fn as_f64(&self) -> (r: Option<u64>)
        ensures
            r == match self@ {
                LiteralValue::Number(n) => n.float_value(),
                _ => None,
            },
    {
        match self {
            QueryLiteral::Number(n) => n.as_f64(),
            _ => None,
        }
    }

    /// Returns true if the literal is a boolean.
    pub fn is_boolean(&self) -> (r: bool)
        ensures
            r == (self@ is Bool),
    {
        self.as_bool().is_some()
    }

    /// If the literal is a boolean, returns it.
    pub fn as_bool(&self) -> (r: Option<bool>)
        ensures
            r == match self@ {
                LiteralValue::Bool(b) => Some(b),
                _ => None,
            },
    {
        match *self {
            QueryLiteral::Bool(b) => Some(b),
            _ => None,
        }
    }

    /// Returns true if the literal is null.
    pub fn is_null(&self) -> (r: bool)
        ensures
            r == (self@ is Null),
    {
        self.as_null().is_some()
    }

    /// If the literal is null, returns `()`.
    pub fn as_null(&self) -> (r: Option<()>)
        ensures
            r is Some <==> self@ is Null,
    {
        match *self {
            QueryLiteral::Null => Some(()),
            _ => None,
        }
    }

    /// The words that the literal is hashed as. Equal literals give the same
    /// words.
    pub fn hash_words(&self) -> (w: Vec<u64>)
        ensures
            w@ == self@.hash_words(),
    {
        let mut w: Vec<u64> = Vec::new();
        match self {
            QueryLiteral::Null => {
                w.push(0);
            },
            QueryLiteral::Bool(b) => {
                w.push(1);
                w.push(if *b {
                    1
                } else {
                    0
                });
            },
            QueryLiteral::Number(n) => {
                w.push(2);
                w.push(n.hash_word());
            },
            QueryLiteral::String(s) => {
                w.push(3);
                let mut tail = byte_words(s.as_str());
                w.append(&mut tail);
            },
        }
        assert(w@ =~= self@.hash_words());
        w
    }

    /// The diagnostic text of the literal, such as `Bool(true)` or
    /// `String("x")`. Printing a float is the caller's part: `float_text` is
    /// the text of the number where it is a float, and is not read otherwise.
    pub fn to_string_with(&self, float_text: &str) -> (s: String)
        ensures
            s@ == self@.text(float_text@),
    {
        match self {
            QueryLiteral::Null => String::from_str("Null"),
            QueryLiteral::Bool(b) => {
                if *b {
                    String::from_str("Bool(true)")
                } else {
                    String::from_str("Bool(false)")
                }
            },
            QueryLiteral::Number(n) => {
                let inner = n.to_string_with(float_text);
                String::from_str("Number(").concat(inner.as_str()).concat(")")
            },
            QueryLiteral::String(s) => {
                let inner = quote_text(s.as_str());
                String::from_str("String(").concat(inner.as_str()).concat(")")
            },
        }
    }
}

impl PartialEq for QueryLiteral {
    fn eq(&self, other: &Self) -> (r: bool) {
        match (self, other) {
            (QueryLiteral::Null, QueryLiteral::Null) => true,
            (QueryLiteral::Bool(a), QueryLiteral::Bool(b)) => *a == *b,
            (QueryLiteral::Number(a), QueryLiteral::Number(b)) => a.eq(b),
            (QueryLiteral::String(a), QueryLiteral::String(b)) => a.eq(b),
            _ => false,
        }
    }
}

impl PartialEqSpecImpl for QueryLiteral {
    open spec fn obeys_eq_spec() -> bool {
        true
    }

    open spec fn eq_spec(&self, other: &Self) -> bool {
        self@.same(other@)
    }
}

impl Eq for QueryLiteral {

}

impl PartialOrd for QueryLiteral {
    fn partial_cmp(&self, other: &Self) -> (r: Option<Ordering>) {
        match (self, other) {
            (QueryLiteral::Null, QueryLiteral::Null) => Some(Ordering::Equal),
            (QueryLiteral::Bool(a), QueryLiteral::Bool(b)) => {
                if *a == *b {
                    Some(Ordering::Equal)
                } else if *b {
                    Some(Ordering::Less)
                } else {
                    Some(Ordering::Greater)
                }
            },
            (QueryLiteral::Number(a), QueryLiteral::Number(b)) => a.partial_cmp(b),
            (QueryLiteral::String(a), QueryLiteral::String(b)) => {
                if is_text_below(a.as_str(), b.as_str()) {
                    Some(Ordering::Less)
                } else if is_text_below(b.as_str(), a.as_str()) {
                    Some(Ordering::Greater)
                } else {
                    Some(Ordering::Equal)
                }
            },
            _ => None,
        }
    }
}

impl PartialOrdSpecImpl for QueryLiteral {
    open spec fn obeys_partial_cmp_spec() -> bool {
        true
    }

    open spec fn partial_cmp_spec(&self, other: &Self) -> Option<Ordering> {
        self@.order(other@)
    }
}

/// Equality and order agree: two values are equal exactly where they are
/// ordered as equal, and values of different variants, or numbers of
/// different variants, are neither equal nor ordered.
pub proof fn law_literal_order_agrees_with_equality(a: LiteralValue, b: LiteralValue)
    ensures
        a.same(b) <==> a.order(b) == Some(Ordering::Equal),
        a.order(b) is None ==> !a.same(b),
        (a is Null && b is Null) || (a is Bool && b is Bool) || (a is String && b is String)
            ==> a.order(b) is Some,
        !((a is Null && b is Null) || (a is Bool && b is Bool) || (a is String && b is String) || (
        a is Number && b is Number)) ==> a.order(b) is None,
{
    match (a, b) {
        (LiteralValue::String(x), LiteralValue::String(y)) => {
            law_text_order_is_total(x, y);
        },
        (LiteralValue::Number(x), LiteralValue::Number(y)) => {
            law_number_order_agrees_with_equality(x, y);
        },
        _ => {},
    }
}

/// Equal values hash alike.
pub proof fn law_equal_literals_hash_alike(a: LiteralValue, b: LiteralValue)
    requires
        a.same(b),
    ensures
        a.hash_words() == b.hash_words(),
{
    match (a, b) {
        (LiteralValue::Number(x), LiteralValue::Number(y)) => {
            law_equal_terms_hash_alike(x, y);
        },
        _ => {},
    }
}

} // verus!
