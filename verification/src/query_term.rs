//! One operand of a comparison: a literal, alone or bound to the name of a
//! document field whose value it is.

use vstd::prelude::*;
use vstd::std_specs::cmp::PartialEqSpecImpl;
use vstd::std_specs::cmp::PartialOrdSpecImpl;
use std::cmp::Ordering;
use crate::number::Number;
use crate::query_literal::QueryLiteral;
use crate::query_literal::LiteralValue;
use crate::query_literal::law_equal_literals_hash_alike;

verus! {

/// A literal, or the name of a field with the literal that is its value.
pub enum QueryTerm {
    Literal(QueryLiteral),
    Field(String, Box<QueryLiteral>),
}

impl Clone for QueryTerm {
    fn clone(&self) -> (r: Self)
        ensures
            r.value() == self.value(),
            r.field() == self.field(),
    {
        match self {
            QueryTerm::Literal(l) => QueryTerm::Literal(l.clone()),
            QueryTerm::Field(n, l) => {
                let inner: QueryLiteral = (**l).clone();
                QueryTerm::Field(n.clone(), Box::new(inner))
            },
        }
    }
}

impl QueryTerm {
    /// The value of the wrapped literal, whether or not the term names a field.
    pub open spec fn value(&self) -> LiteralValue {
        match self {
            QueryTerm::Literal(l) => l@,
            QueryTerm::Field(_, l) => l@,
        }
    }

    /// The name of the field, where the term names one.
    pub open spec fn field(&self) -> Option<Seq<char>> {
        match self {
            QueryTerm::Literal(_) => None,
            QueryTerm::Field(n, _) => Some(n@),
        }
    }

    /// The text of a term: that of its literal, inside `Field(name,..)` where
    /// the term names a field.
    pub open spec fn text(&self, float_text: Seq<char>) -> Seq<char> {
        match self {
            QueryTerm::Literal(l) => l@.text(float_text),
            QueryTerm::Field(n, l) => "Field("@ + n@ + ","@ + l@.text(float_text) + ")"@,
        }
    }

    /// Returns true if the term is a string, which is exactly when `as_str`
    /// returns it.
    pub fn is_string(&self) -> (r: bool)
        ensures
            r == (self.value() is String),
    {
        match self {
            QueryTerm::Literal(l) => l.is_string(),
            QueryTerm::Field(_, l) => l.is_string(),
        }
    }

    /// If the term is a string, returns it.
    pub fn as_str(&self) -> (r: Option<&str>)
        ensures
            r is Some <==> self.value() is String,
            r matches Some(s) ==> self.value() == LiteralValue::String(s@),
    {
        match self {
            QueryTerm::Literal(l) => l.as_str(),
            QueryTerm::Field(_, l) => l.as_str(),
        }
    }

    /// Returns true if the term is a number.
    pub fn is_number(&self) -> (r: bool)
        ensures
            r == (self.value() is Number),
    {
        match self {
            QueryTerm::Literal(l) => l.is_number(),
            QueryTerm::Field(_, l) => l.is_number(),
        }
    }

    /// If the term is a number, returns it.
    pub fn as_number(&self) -> (r: Option<&Number>)
        ensures
            r is Some <==> self.value() is Number,
            r matches Some(n) ==> self.value() == LiteralValue::Number(n@),
    {
        match self {
            QueryTerm::Literal(l) => l.as_number(),
            QueryTerm::Field(_, l) => l.as_number(),
        }
    }

    /// Returns true if the term is an integer between `i64::MIN` and
    /// `i64::MAX`.
    pub fn is_i64(&self) -> (r: bool)
        ensures
            r == (self.value() matches LiteralValue::Number(n) && n.i64_value() is Some),
    {
        match self {
            QueryTerm::Literal(l) => l.is_i64(),
            QueryTerm::Field(_, l) => l.is_i64(),
        }
    }

    /// Returns true if the term is an integer between zero and `u64::MAX`.
    pub fn is_u64(&self) -> (r: bool)
        ensures
            r == (self.value() matches LiteralValue::Number(n) && n.u64_value() is Some),
    {
        match self {
            QueryTerm::Literal(l) => l.is_u64(),
            QueryTerm::Field(_, l) => l.is_u64(),
        }
    }

    /// Returns true if the term is a number stored as a float.
    pub fn is_f64(&self) -> (r: bool)
        ensures
            r == (self.value() matches LiteralValue::Number(n) && n is Float),
    {
        match self {
            QueryTerm::Literal(l) => l.is_f64(),
            QueryTerm::Field(_, l) => l.is_f64(),
        }
    }

    /// If the term is an integer that fits, returns it as `i64`.
    pub fn as_i64(&self) -> (r: Option<i64>)
        ensures
            r == match self.value() {
                LiteralValue::Number(n) => n.i64_value(),
                _ => None,
            },
    {
        match self {
            QueryTerm::Literal(l) => l.as_i64(),
            QueryTerm::Field(_, l) => l.as_i64(),
        }
    }

    /// If the term is an unsigned integer, returns it as `u64`.
    pub fn as_u64(&self) -> (r: Option<u64>)
        ensures
            r == match self.value() {
                LiteralValue::Number(n) => n.u64_value(),
                _ => None,
            },
    {
        match self {
            QueryTerm::Literal(l) => l.as_u64(),
            QueryTerm::Field(_, l) => l.as_u64(),
        }
    }

    /// If the term is a number that a float holds exactly, returns the bit
    /// pattern of that float.
    pub fn as_f64(&self) -> (r: Option<u64>)
        ensures
            r == match self.value() {
                LiteralValue::Number(n) => n.float_value(),
                _ => None,
            },
    {
        match self {
            QueryTerm::Literal(l) => l.as_f64(),
            QueryTerm::Field(_, l) => l.as_f64(),
        }
    }

    /// Returns true if the term is a boolean.
    pub fn is_boolean(&self) -> (r: bool)
        ensures
            r == (self.value() is Bool),
    {
        match self {
            QueryTerm::Literal(l) => l.is_boolean(),
            QueryTerm::Field(_, l) => l.is_boolean(),
        }
    }

    /// If the term is a boolean, returns it.
    pub fn as_bool(&self) -> (r: Option<bool>)
        ensures
            r == match self.value() {
                LiteralValue::Bool(b) => Some(b),
                _ => None,
            },
    {
        match self {
            QueryTerm::Literal(l) => l.as_bool(),
            QueryTerm::Field(_, l) => l.as_bool(),
        }
    }

    /// Returns true if the term is null.
    pub fn is_null(&self) -> (r: bool)
        ensures
            r == (self.value() is Null),
    {
        match self {
            QueryTerm::Literal(l) => l.is_null(),
            QueryTerm::Field(_, l) => l.is_null(),
        }
    }

    /// If the term is null, returns `()`.
    pub fn as_null(&self) -> (r: Option<()>)
        ensures
            r is Some <==> self.value() is Null,
    {
        match self {
            QueryTerm::Literal(l) => l.as_null(),
            QueryTerm::Field(_, l) => l.as_null(),
        }
    }

    /// The words that the term is hashed as: those of its value, so that terms
    /// that are equal give the same words.
    pub fn hash_words(&self) -> (w: Vec<u64>)
        ensures
            w@ == self.value().hash_words(),
    {
        match self {
            QueryTerm::Literal(l) => l.hash_words(),
            QueryTerm::Field(_, l) => l.hash_words(),
        }
    }

    /// The diagnostic text of the term. Printing a float is the caller's
    /// part: `float_text` is the text of the number where it is a float, and is
    /// not read otherwise.
    pub fn to_string_with(&self, float_text: &str) -> (s: String)
        ensures
            s@ == self.text(float_text@),
    {
        match self {
            QueryTerm::Literal(l) => l.to_string_with(float_text),
            QueryTerm::Field(n, l) => {
                let inner = l.to_string_with(float_text);
                String::from_str("Field(").concat(n.as_str()).concat(",").concat(
                    inner.as_str(),
                ).concat(")")
            },
        }
    }
}

/// Two terms are equal when their values are: a field's value and a bare
/// literal are compared alike, and the field's name takes no part.
impl PartialEq for QueryTerm {
    fn eq(&self, other: &Self) -> (r: bool) {
        let a: &QueryLiteral = match self {
            QueryTerm::Literal(l) => l,
            QueryTerm::Field(_, l) => l,
        };
        let b: &QueryLiteral = match other {
            QueryTerm::Literal(l) => l,
            QueryTerm::Field(_, l) => l,
        };
        a.eq(b)
    }
}

impl PartialEqSpecImpl for QueryTerm {
    open spec fn obeys_eq_spec() -> bool {
        true
    }

    open spec fn eq_spec(&self, other: &Self) -> bool {
        self.value().same(other.value())
    }
}

impl Eq for QueryTerm {

}

/// Two terms are ordered as their values are.
impl PartialOrd for QueryTerm {
    fn partial_cmp(&self, other: &Self) -> (r: Option<Ordering>) {
        let a: &QueryLiteral = match self {
            QueryTerm::Literal(l) => l,
            QueryTerm::Field(_, l) => l,
        };
        let b: &QueryLiteral = match other {
            QueryTerm::Literal(l) => l,
            QueryTerm::Field(_, l) => l,
        };
        a.partial_cmp(b)
    }
}

impl PartialOrdSpecImpl for QueryTerm {
    open spec fn obeys_partial_cmp_spec() -> bool {
        true
    }

    open spec fn partial_cmp_spec(&self, other: &Self) -> Option<Ordering> {
        self.value().order(other.value())
    }
}

/// Equal terms hash alike.
pub proof fn law_equal_query_terms_hash_alike(a: QueryTerm, b: QueryTerm)
    requires
        a.value().same(b.value()),
    ensures
        a.value().hash_words() == b.value().hash_words(),
{
    law_equal_literals_hash_alike(a.value(), b.value());
}

} // verus!
