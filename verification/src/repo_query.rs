//! The query algebra: comparisons of two operands, combined with and, or and
//! not, and its evaluation to a boolean.

use vstd::prelude::*;
use vstd::std_specs::cmp::PartialEqSpec;
use vstd::std_specs::cmp::PartialOrdSpec;
use std::cmp::Ordering;
use crate::query_term::QueryTerm;

verus! {

/// A query: a comparison of two operands, or a boolean combination of queries.
pub enum RepoQuery<T> {
    Eq(T, T),
    Ne(T, T),
    Ge(T, T),
    Gt(T, T),
    Le(T, T),
    Lt(T, T),
    And(Box<RepoQuery<T>>, Box<RepoQuery<T>>),
    Or(Box<RepoQuery<T>>, Box<RepoQuery<T>>),
    Not(Box<RepoQuery<T>>),
}

impl<T: PartialEq + PartialOrd> RepoQuery<T> {
    /// What a query evaluates to. `Eq` and `Ne` go by the equality of the
    /// operands. An ordering comparison holds only where the operands are
    /// ordered and the order is the one asked for, so it is false of operands
    /// that cannot be compared. `And`, `Or` and `Not` have their usual meaning.
    pub open spec fn holds(&self) -> bool
        decreases self,
    {
        match self {
            RepoQuery::Eq(a, b) => a.eq_spec(b),
            RepoQuery::Ne(a, b) => !a.eq_spec(b),
            RepoQuery::Ge(a, b) => a.partial_cmp_spec(b) == Some(Ordering::Greater)
                || a.partial_cmp_spec(b) == Some(Ordering::Equal),
            RepoQuery::Gt(a, b) => a.partial_cmp_spec(b) == Some(Ordering::Greater),
            RepoQuery::Le(a, b) => a.partial_cmp_spec(b) == Some(Ordering::Less)
                || a.partial_cmp_spec(b) == Some(Ordering::Equal),
            RepoQuery::Lt(a, b) => a.partial_cmp_spec(b) == Some(Ordering::Less),
            RepoQuery::And(p, q) => p.holds() && q.holds(),
            RepoQuery::Or(p, q) => p.holds() || q.holds(),
            RepoQuery::Not(p) => !p.holds(),
        }
    }

    /// `a` equals `b`.
    pub fn eq(a: T, b: T) -> (q: Self)
        ensures
            q == RepoQuery::Eq(a, b),
    {
        RepoQuery::Eq(a, b)
    }

    /// `a` does not equal `b`.
    pub fn ne(a: T, b: T) -> (q: Self)
        ensures
            q == RepoQuery::Ne(a, b),
    {
        RepoQuery::Ne(a, b)
    }

    /// `a` is greater than or equal to `b`.
    pub fn ge(a: T, b: T) -> (q: Self)
        ensures
            q == RepoQuery::Ge(a, b),
    {
        RepoQuery::Ge(a, b)
    }

    /// `a` is greater than `b`.
    pub fn gt(a: T, b: T) -> (q: Self)
        ensures
            q == RepoQuery::Gt(a, b),
    {
        RepoQuery::Gt(a, b)
    }

    /// `a` is less than or equal to `b`.
    pub fn le(a: T, b: T) -> (q: Self)
        ensures
            q == RepoQuery::Le(a, b),
    {
        RepoQuery::Le(a, b)
    }

    /// `a` is less than `b`.
    pub fn lt(a: T, b: T) -> (q: Self)
        ensures
            q == RepoQuery::Lt(a, b),
    {
        RepoQuery::Lt(a, b)
    }

    /// Both `a` and `b` hold.
    pub fn and(a: Self, b: Self) -> (q: Self)
        ensures
            q == RepoQuery::And(Box::new(a), Box::new(b)),
    {
        RepoQuery::And(Box::new(a), Box::new(b))
    }

    /// `a` or `b` holds, or both.
    pub fn or(a: Self, b: Self) -> (q: Self)
        ensures
            q == RepoQuery::Or(Box::new(a), Box::new(b)),
    {
        RepoQuery::Or(Box::new(a), Box::new(b))
    }

    /// `x` does not hold.
    pub fn not(x: Self) -> (q: Self)
        ensures
            q == RepoQuery::Not(Box::new(x)),
    {
        RepoQuery::Not(Box::new(x))
    }

    /// Evaluates the query. The result is `holds()` for every operand type
    /// whose `==` and `<` do what their specifications say.
    pub fn evaluate(&self) -> (r: bool)
        ensures
            T::obeys_eq_spec() && T::obeys_partial_cmp_spec() ==> r == self.holds(),
        decreases self,
    {
        match self {
            RepoQuery::Eq(a, b) => a.eq(b),
            RepoQuery::Ne(a, b) => a.ne(b),
            RepoQuery::Ge(a, b) => a.ge(b),
            RepoQuery::Gt(a, b) => a.gt(b),
            RepoQuery::Le(a, b) => a.le(b),
            RepoQuery::Lt(a, b) => a.lt(b),
            RepoQuery::And(a, b) => a.evaluate() && b.evaluate(),
            RepoQuery::Or(a, b) => a.evaluate() || b.evaluate(),
            RepoQuery::Not(a) => !a.evaluate(),
        }
    }

    /// De Morgan: the negation of a conjunction is the disjunction of the
    /// negations, and the negation of a disjunction is the conjunction of the
    /// negations.
    pub proof fn law_de_morgan(a: Self, b: Self)
        ensures
            RepoQuery::Not(Box::new(RepoQuery::And(Box::new(a), Box::new(b)))).holds()
                == RepoQuery::Or(
                Box::new(RepoQuery::Not(Box::new(a))),
                Box::new(RepoQuery::Not(Box::new(b))),
            ).holds(),
            RepoQuery::Not(Box::new(RepoQuery::Or(Box::new(a), Box::new(b)))).holds()
                == RepoQuery::And(
                Box::new(RepoQuery::Not(Box::new(a))),
                Box::new(RepoQuery::Not(Box::new(b))),
            ).holds(),
    {
        reveal_with_fuel(RepoQuery::holds, 4);
    }

    /// Negating twice changes nothing, and `Ne` is the negation of `Eq`.
    pub proof fn law_negation(a: Self, x: T, y: T)
        ensures
            RepoQuery::Not(Box::new(RepoQuery::Not(Box::new(a)))).holds() == a.holds(),
            RepoQuery::Ne(x, y).holds() == !RepoQuery::Eq(x, y).holds(),
    {
        reveal_with_fuel(RepoQuery::holds, 3);
    }
}

/// Terms whose values are of different kinds are never equal and never
/// ordered: of all six comparisons only `Ne` holds of them.
pub proof fn law_kinds_do_not_mix(a: QueryTerm, b: QueryTerm)
    requires
        a.value().order(b.value()) is None,
    ensures
        !RepoQuery::Eq(a, b).holds(),
        RepoQuery::Ne(a, b).holds(),
        !RepoQuery::Ge(a, b).holds(),
        !RepoQuery::Gt(a, b).holds(),
        !RepoQuery::Le(a, b).holds(),
        !RepoQuery::Lt(a, b).holds(),
{
}

/// A string is never equal to a number, nor above or below one, whichever
/// side it stands on.
pub proof fn law_string_against_number(a: QueryTerm, b: QueryTerm)
    requires
        a.value() is String,
        b.value() is Number,
    ensures
        !RepoQuery::Eq(a, b).holds(),
        !RepoQuery::Gt(a, b).holds(),
        !RepoQuery::Lt(a, b).holds(),
        !RepoQuery::Ge(a, b).holds(),
        !RepoQuery::Le(a, b).holds(),
        !RepoQuery::Eq(b, a).holds(),
        !RepoQuery::Gt(b, a).holds(),
        !RepoQuery::Lt(b, a).holds(),
{
}

} // verus!
