use repodb::number::Number;
use repodb::query_literal::QueryLiteral;
use repodb::query_term::QueryTerm;
use repodb::repo_query::RepoQuery;
use std::cmp::Ordering;

fn num(i: i128) -> QueryLiteral {
    match Number::from_i128(i) {
        Some(n) => QueryLiteral::Number(n),
        None => panic!("out of range"),
    }
}

fn flt(f: f64) -> QueryLiteral {
    match Number::from_f64(f.to_bits()) {
        Some(n) => QueryLiteral::Number(n),
        None => panic!("not finite"),
    }
}

fn text(s: &str) -> QueryLiteral {
    QueryLiteral::String(String::from(s))
}

fn lit(l: QueryLiteral) -> QueryTerm {
    QueryTerm::Literal(l)
}

fn field(name: &str, l: QueryLiteral) -> QueryTerm {
    QueryTerm::Field(String::from(name), Box::new(l))
}

#[test]
fn literal_accessors() {
    let s = text("x");
    assert!(s.is_string());
    assert_eq!(s.as_str(), Some("x"));
    assert!(!s.is_number() && !s.is_boolean() && !s.is_null());
    assert!(s.as_number().is_none());
    assert_eq!(s.as_i64(), None);
    assert_eq!(s.as_u64(), None);
    assert_eq!(s.as_f64(), None);
    assert_eq!(s.as_bool(), None);
    assert_eq!(s.as_null(), None);

    let n = num(5);
    assert!(n.is_number() && n.is_i64() && n.is_u64() && !n.is_f64());
    assert_eq!(n.as_i64(), Some(5));
    assert_eq!(n.as_u64(), Some(5));
    assert_eq!(n.as_number().and_then(|x| x.as_i64()), Some(5));
    assert_eq!(n.as_str(), None);

    let m = num(-5);
    assert!(m.is_i64() && !m.is_u64());
    assert_eq!(m.as_i64(), Some(-5));
    assert_eq!(m.as_u64(), None);

    let f = flt(2.5);
    assert!(f.is_number() && f.is_f64() && !f.is_i64() && !f.is_u64());
    assert_eq!(f.as_f64(), Some(2.5f64.to_bits()));

    let b = QueryLiteral::Bool(true);
    assert!(b.is_boolean());
    assert_eq!(b.as_bool(), Some(true));
    assert!(!b.is_null() && !b.is_string() && !b.is_number());

    let z = QueryLiteral::Null;
    assert!(z.is_null());
    assert_eq!(z.as_null(), Some(()));
    assert!(!z.is_boolean());
    assert!(!z.is_i64() && !z.is_u64() && !z.is_f64());
}

#[test]
fn literal_text() {
    assert_eq!(QueryLiteral::Null.to_string_with(""), "Null");
    assert_eq!(QueryLiteral::Bool(true).to_string_with(""), "Bool(true)");
    assert_eq!(QueryLiteral::Bool(false).to_string_with(""), "Bool(false)");
    assert_eq!(num(5).to_string_with(""), "Number(5)");
    assert_eq!(num(-17).to_string_with(""), "Number(-17)");
    assert_eq!(flt(2.5).to_string_with("2.5"), "Number(2.5)");
    assert_eq!(text("x").to_string_with(""), "String(\"x\")");
    assert_eq!(text("a\"b\n").to_string_with(""), "String(\"a\\\"b\\n\")");
}

#[test]
fn term_text() {
    assert_eq!(lit(num(5)).to_string_with(""), "Number(5)");
    assert_eq!(field("age", num(5)).to_string_with(""), "Field(age,Number(5))");
    assert_eq!(field("name", text("x")).to_string_with(""), "Field(name,String(\"x\"))");
}

#[test]
fn term_accessors_go_to_the_literal() {
    for t in [lit(num(5)), field("age", num(5))] {
        assert!(t.is_number() && t.is_i64() && t.is_u64() && !t.is_f64());
        assert_eq!(t.as_i64(), Some(5));
        assert_eq!(t.as_u64(), Some(5));
        assert_eq!(t.as_f64(), Some(5.0f64.to_bits()));
        assert!(t.as_number().is_some());
        assert!(!t.is_string() && !t.is_boolean() && !t.is_null());
        assert_eq!(t.as_str(), None);
        assert_eq!(t.as_bool(), None);
        assert_eq!(t.as_null(), None);
    }
    for t in [lit(text("x")), field("name", text("x"))] {
        assert!(t.is_string());
        assert_eq!(t.as_str(), Some("x"));
    }
    for t in [lit(QueryLiteral::Bool(false)), field("on", QueryLiteral::Bool(false))] {
        assert!(t.is_boolean());
        assert_eq!(t.as_bool(), Some(false));
    }
    for t in [lit(QueryLiteral::Null), field("gone", QueryLiteral::Null)] {
        assert!(t.is_null());
        assert_eq!(t.as_null(), Some(()));
    }
    let f = field("ratio", flt(0.5));
    assert!(f.is_f64());
    assert_eq!(f.as_f64(), Some(0.5f64.to_bits()));
}

#[test]
fn literals_compare_within_one_variant() {
    assert!(QueryLiteral::Null == QueryLiteral::Null);
    assert_eq!(QueryLiteral::Null.partial_cmp(&QueryLiteral::Null), Some(Ordering::Equal));
    assert!(QueryLiteral::Bool(false) < QueryLiteral::Bool(true));
    assert!(QueryLiteral::Bool(true) > QueryLiteral::Bool(false));
    assert!(QueryLiteral::Bool(true) >= QueryLiteral::Bool(true));
    assert!(num(1) < num(2));
    assert!(text("a") < text("b"));
    assert!(text("a") < text("ab"));
    assert!(text("b") > text("ab"));
    assert!(text("") < text("a"));
    assert!(text("abc") == text("abc"));
    assert!(text("abc") <= text("abc"));
    assert!(text("é") > text("z"));
    assert_eq!(text("abc").partial_cmp(&text("abd")), "abc".partial_cmp("abd"));
}

#[test]
fn literals_of_different_variants_do_not_compare() {
    let all = [QueryLiteral::Null, QueryLiteral::Bool(true), num(1), text("1")];
    for (i, a) in all.iter().enumerate() {
        for (j, b) in all.iter().enumerate() {
            if i != j {
                assert!(a != b);
                assert_eq!(a.partial_cmp(b), None);
                assert!(!(a < b) && !(a <= b) && !(a > b) && !(a >= b));
            }
        }
    }
    assert_eq!(num(1).partial_cmp(&flt(1.0)), None);
    assert_eq!(num(-1).partial_cmp(&num(1)), None);
}

#[test]
fn evaluate_combines_comparisons() {
    let q = RepoQuery::and(
        RepoQuery::eq(lit(num(5)), lit(num(5))),
        RepoQuery::not(RepoQuery::eq(lit(num(1)), lit(num(2)))),
    );
    assert!(q.evaluate());
    let q = RepoQuery::or(
        RepoQuery::eq(lit(num(1)), lit(num(2))),
        RepoQuery::eq(lit(num(2)), lit(num(2))),
    );
    assert!(q.evaluate());
    assert!(q.evaluate());
    let q = RepoQuery::and(
        RepoQuery::eq(lit(num(1)), lit(num(2))),
        RepoQuery::eq(lit(num(2)), lit(num(2))),
    );
    assert!(!q.evaluate());
    let q = RepoQuery::or(
        RepoQuery::eq(lit(num(1)), lit(num(2))),
        RepoQuery::ne(lit(num(2)), lit(num(2))),
    );
    assert!(!q.evaluate());
}

#[test]
fn evaluate_works_on_plain_integers() {
    assert!(RepoQuery::and(RepoQuery::eq(5, 5), RepoQuery::not(RepoQuery::eq(1, 2))).evaluate());
    assert!(RepoQuery::or(RepoQuery::eq(1, 2), RepoQuery::eq(2, 2)).evaluate());
    assert!(RepoQuery::ne(1, 2).evaluate());
    assert!(RepoQuery::ge(2, 2).evaluate());
    assert!(RepoQuery::ge(3, 2).evaluate());
    assert!(!RepoQuery::ge(1, 2).evaluate());
    assert!(RepoQuery::gt(3, 2).evaluate());
    assert!(!RepoQuery::gt(2, 2).evaluate());
    assert!(RepoQuery::le(2, 2).evaluate());
    assert!(!RepoQuery::le(3, 2).evaluate());
    assert!(RepoQuery::lt(1, 2).evaluate());
    assert!(!RepoQuery::lt(2, 2).evaluate());
}

#[test]
fn each_comparison_of_terms() {
    let a = || lit(num(1));
    let b = || lit(num(2));
    assert!(!RepoQuery::eq(a(), b()).evaluate());
    assert!(RepoQuery::ne(a(), b()).evaluate());
    assert!(!RepoQuery::ge(a(), b()).evaluate());
    assert!(!RepoQuery::gt(a(), b()).evaluate());
    assert!(RepoQuery::le(a(), b()).evaluate());
    assert!(RepoQuery::lt(a(), b()).evaluate());
    assert!(RepoQuery::ge(b(), a()).evaluate());
    assert!(RepoQuery::gt(b(), a()).evaluate());
    assert!(RepoQuery::ge(a(), a()).evaluate());
    assert!(RepoQuery::le(a(), a()).evaluate());
    assert!(!RepoQuery::gt(a(), a()).evaluate());
    assert!(!RepoQuery::lt(a(), a()).evaluate());
}

#[test]
fn a_string_never_compares_with_a_number() {
    let s = || lit(text("5"));
    let n = || lit(num(5));
    assert!(!RepoQuery::eq(s(), n()).evaluate());
    assert!(!RepoQuery::gt(s(), n()).evaluate());
    assert!(!RepoQuery::lt(s(), n()).evaluate());
    assert!(!RepoQuery::ge(s(), n()).evaluate());
    assert!(!RepoQuery::le(s(), n()).evaluate());
    assert!(RepoQuery::ne(s(), n()).evaluate());
    assert!(!RepoQuery::eq(n(), s()).evaluate());
    assert!(!RepoQuery::gt(n(), s()).evaluate());
    assert!(!RepoQuery::lt(n(), s()).evaluate());
    let fs = || field("a", text("5"));
    let fnum = || field("b", num(5));
    assert!(!RepoQuery::eq(fs(), fnum()).evaluate());
    assert!(!RepoQuery::gt(fs(), fnum()).evaluate());
    assert!(!RepoQuery::lt(fs(), fnum()).evaluate());
}

#[test]
fn a_field_compares_by_its_value() {
    assert!(RepoQuery::gt(field("age", num(43)), lit(num(40))).evaluate());
    assert!(RepoQuery::eq(field("age", num(43)), lit(num(43))).evaluate());
    assert!(!RepoQuery::lt(field("age", num(43)), lit(num(40))).evaluate());
    assert!(RepoQuery::eq(field("name", text("John")), lit(text("John"))).evaluate());
    assert!(RepoQuery::lt(field("b", num(1)), field("a", num(2))).evaluate());
    assert!(field("a", num(1)) == lit(num(1)));
    assert_eq!(field("a", num(1)).partial_cmp(&lit(num(2))), Some(Ordering::Less));
}

#[test]
fn de_morgan_on_values() {
    for p in [true, false] {
        for q in [true, false] {
            let a = || if p { RepoQuery::eq(1, 1) } else { RepoQuery::eq(1, 2) };
            let b = || if q { RepoQuery::eq(1, 1) } else { RepoQuery::eq(1, 2) };
            assert_eq!(
                RepoQuery::not(RepoQuery::and(a(), b())).evaluate(),
                RepoQuery::or(RepoQuery::not(a()), RepoQuery::not(b())).evaluate()
            );
            assert_eq!(
                RepoQuery::not(RepoQuery::or(a(), b())).evaluate(),
                RepoQuery::and(RepoQuery::not(a()), RepoQuery::not(b())).evaluate()
            );
            assert_eq!(RepoQuery::and(a(), b()).evaluate(), p && q);
            assert_eq!(RepoQuery::or(a(), b()).evaluate(), p || q);
            assert_eq!(RepoQuery::not(a()).evaluate(), !p);
        }
    }
}

#[test]
fn clones_keep_the_value() {
    let t = field("age", num(43));
    let c = t.clone();
    assert!(t == c);
    assert_eq!(c.to_string_with(""), "Field(age,Number(43))");
    let l = text("x").clone();
    assert_eq!(l.as_str(), Some("x"));
}

#[test]
fn literals_hash_as_their_words() {
    assert_eq!(QueryLiteral::Null.hash_words(), vec![0]);
    assert_eq!(QueryLiteral::Bool(false).hash_words(), vec![1, 0]);
    assert_eq!(QueryLiteral::Bool(true).hash_words(), vec![1, 1]);
    assert_eq!(num(7).hash_words(), vec![2, 7]);
    assert_eq!(num(-1).hash_words(), vec![2, u64::MAX]);
    assert_eq!(flt(1.5).hash_words(), vec![2, 1.5f64.to_bits()]);
    assert_eq!(text("").hash_words(), vec![3]);
    assert_eq!(text("ab").hash_words(), vec![3, 97, 98]);
    assert_eq!(text("é").hash_words(), vec![3, 0xc3, 0xa9]);
}

#[test]
fn equal_values_hash_alike() {
    assert!(flt(0.0) == flt(-0.0));
    assert_eq!(flt(0.0).hash_words(), flt(-0.0).hash_words());
    assert_eq!(flt(0.0).hash_words(), vec![2, 0]);
    assert_eq!(text("x").hash_words(), text("x").clone().hash_words());
    assert!(field("a", num(1)) == lit(num(1)));
    assert_eq!(field("a", num(1)).hash_words(), lit(num(1)).hash_words());
    assert_eq!(field("a", text("v")).hash_words(), field("b", text("v")).hash_words());
    assert_eq!(field("a", text("v")).hash_words(), vec![3, 118]);
    assert_ne!(lit(QueryLiteral::Bool(true)).hash_words(), lit(num(1)).hash_words());
    assert_ne!(text("1").hash_words(), num(1).hash_words());
}
