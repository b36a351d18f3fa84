//! Operations on text that the rest of the library shares: the order of two
//! strings, whether one text occurs in another, and splitting on a separator.

use vstd::prelude::*;

verus! {

/// `a` and `b` agree on their first `k` bytes, and there `a` has ended while
/// `b` goes on, or `a` holds the smaller byte.
pub open spec fn parts_below_at(a: Seq<u8>, b: Seq<u8>, k: int) -> bool {
    &&& 0 <= k <= a.len()
    &&& k < b.len()
    &&& forall|j: int| 0 <= j < k ==> a[j] == b[j]
    &&& (k == a.len() || a[k] < b[k])
}

/// `a` comes before `b` in lexicographic order.
pub open spec fn bytes_below(a: Seq<u8>, b: Seq<u8>) -> bool {
    exists|k: int| parts_below_at(a, b, k)
}

/// `a` comes before `b` as `str` orders texts: by the lexicographic order of
/// their UTF-8 bytes.
pub open spec fn text_below(a: Seq<char>, b: Seq<char>) -> bool {
    bytes_below(vstd::utf8::encode_utf8(a), vstd::utf8::encode_utf8(b))
}

/// Whether `a` comes strictly before `b` in lexicographic order.
pub fn is_bytes_below(a: &[u8], b: &[u8]) -> (r: bool)
    ensures
        r == bytes_below(a@, b@),
{
    let mut i: usize = 0;
    while i < a.len() && i < b.len() && a[i] == b[i]
        invariant
            i <= a@.len(),
            i <= b@.len(),
            forall|j: int| 0 <= j < i ==> a@[j] == b@[j],
        decreases a@.len() - i,
    {
        i = i + 1;
    }
    let r = i < b.len() && (i == a.len() || a[i] < b[i]);
    proof {
        let k = i as int;
        if r {
            assert(parts_below_at(a@, b@, k));
        } else {
            assert forall|m: int| !parts_below_at(a@, b@, m) by {
                if parts_below_at(a@, b@, m) {
                    if m < k {
                        assert(a@[m] == b@[m]);
                    } else if m > k {
                        assert(a@[k] == b@[k]);
                    }
                }
            }
        }
    }
    r
}

/// Whether `a` comes strictly before `b` as `str` orders texts.
pub fn is_text_below(a: &str, b: &str) -> (r: bool)
    ensures
        r == text_below(a@, b@),
{
    is_bytes_below(a.as_bytes(), b.as_bytes())
}

/// The number of characters of `s` before the first `sep`, or the length of
/// `s` where it holds none.
pub open spec fn first_index_of(s: Seq<char>, sep: char) -> int
    decreases s.len(),
{
    if s.len() == 0 || s[0] == sep {
        0
    } else {
        1 + first_index_of(s.drop_first(), sep)
    }
}

/// The pieces of `s` between its separators, in order. A text without a
/// separator is one piece; an empty text is one empty piece; two separators in
/// a row have an empty piece between them.
pub open spec fn split_text(s: Seq<char>, sep: char) -> Seq<Seq<char>>
    decreases s.len(),
{
    let i = first_index_of(s, sep);
    if 0 <= i < s.len() {
        seq![s.take(i)] + split_text(s.skip(i + 1), sep)
    } else {
        seq![s]
    }
}

/// Where the first `n` characters are not the separator, and the text ends
/// there or holds the separator there, `n` is the first index.
pub proof fn lemma_first_index(s: Seq<char>, sep: char, n: int)
    requires
        0 <= n <= s.len(),
        forall|k: int| 0 <= k < n ==> s[k] != sep,
        n == s.len() || s[n] == sep,
    ensures
        first_index_of(s, sep) == n,
    decreases n,
{
    if n > 0 {
        let t = s.drop_first();
        assert forall|k: int| 0 <= k < n - 1 implies t[k] != sep by {
            assert(t[k] == s[k + 1]);
        }
        lemma_first_index(t, sep, n - 1);
    }
}

/// Splits a text on a separator character.
pub fn split(s: &str, sep: char) -> (parts: Vec<String>)
    ensures
        parts@.len() >= 1,
        parts@.map_values(|p: String| p@) == split_text(s@, sep),
{
    let n: usize = s.unicode_len();
    let mut parts: Vec<String> = Vec::new();
    let mut start: usize = 0;
    let mut j: usize = 0;
    proof {
        assert(s@.skip(0) =~= s@);
        assert(parts@.map_values(|p: String| p@) + split_text(s@, sep) =~= split_text(s@, sep));
    }
    while j < n
        invariant
            n == s@.len(),
            start <= j <= n,
            forall|k: int| start <= k < j ==> s@[k] != sep,
            parts@.map_values(|p: String| p@) + split_text(s@.skip(start as int), sep)
                == split_text(s@, sep),
        decreases n - j,
    {
        if s.get_char(j) == sep {
            let piece = String::from_str(s.substring_char(start, j));
            proof {
                let rest = s@.skip(start as int);
                assert forall|k: int| 0 <= k < j - start implies rest[k] != sep by {
                    assert(rest[k] == s@[start + k]);
                }
                lemma_first_index(rest, sep, j - start);
                assert(rest.take(j - start) =~= s@.subrange(start as int, j as int));
                assert(rest.skip(j - start + 1) =~= s@.skip(j + 1));
                assert(parts@.push(piece).map_values(|p: String| p@) =~= parts@.map_values(
                    |p: String| p@,
                ) + seq![piece@]);
            }
            parts.push(piece);
            j = j + 1;
            start = j;
        } else {
            j = j + 1;
        }
    }
    let piece = String::from_str(s.substring_char(start, n));
    proof {
        let rest = s@.skip(start as int);
        assert forall|k: int| 0 <= k < n - start implies rest[k] != sep by {
            assert(rest[k] == s@[start + k]);
        }
        lemma_first_index(rest, sep, n - start);
        assert(rest =~= s@.subrange(start as int, n as int));
        assert(parts@.push(piece).map_values(|p: String| p@) =~= parts@.map_values(
            |p: String| p@,
        ) + seq![piece@]);
    }
    parts.push(piece);
    parts
}

/// `needle` occurs in `s`.
pub open spec fn occurs_in(needle: Seq<char>, s: Seq<char>) -> bool {
    exists|i: int| occurs_at(needle, s, i)
}

/// `needle` stands in `s` from index `i` on.
pub open spec fn occurs_at(needle: Seq<char>, s: Seq<char>, i: int) -> bool {
    0 <= i && i + needle.len() <= s.len() && s.subrange(i, i + needle.len()) == needle
}

/// Whether `needle` occurs in `s`.
pub fn contains(s: &str, needle: &str) -> (r: bool)
    ensures
        r == occurs_in(needle@, s@),
{
    let n: usize = s.unicode_len();
    let m: usize = needle.unicode_len();
    if m > n {
        assert forall|i: int| !occurs_at(needle@, s@, i) by {}
        return false;
    }
    let mut i: usize = 0;
    while i <= n - m
        invariant
            n == s@.len(),
            m == needle@.len(),
            m <= n,
            i <= n - m + 1,
            forall|k: int| 0 <= k < i ==> !occurs_at(needle@, s@, k),
        decreases n - m + 1 - i,
    {
        let mut j: usize = 0;
        while j < m && s.get_char(i + j) == needle.get_char(j)
            invariant
                n == s@.len(),
                m == needle@.len(),
                i + m <= n,
                j <= m,
                forall|k: int| 0 <= k < j ==> s@[i + k] == needle@[k],
            decreases m - j,
        {
            j = j + 1;
        }
        if j == m {
            assert(s@.subrange(i as int, i + m) =~= needle@);
            assert(occurs_at(needle@, s@, i as int));
            return true;
        }
        assert(!occurs_at(needle@, s@, i as int)) by {
            if occurs_at(needle@, s@, i as int) {
                assert(s@.subrange(i as int, i + m)[j as int] == needle@[j as int]);
            }
        }
        i = i + 1;
    }
    assert forall|k: int| !occurs_at(needle@, s@, k) by {}
    false
}

/// Two byte strings of which neither comes before the other agree on their
/// first `i` bytes.
proof fn lemma_unordered_agree(a: Seq<u8>, b: Seq<u8>, i: nat)
    requires
        !bytes_below(a, b),
        !bytes_below(b, a),
        i <= a.len(),
        i <= b.len(),
    ensures
        forall|j: int| 0 <= j < i ==> a[j] == b[j],
    decreases i,
{
    if i > 0 {
        lemma_unordered_agree(a, b, (i - 1) as nat);
        if a[i - 1] != b[i - 1] {
            assert(parts_below_at(a, b, i - 1) || parts_below_at(b, a, i - 1));
        }
    }
}

/// Of two texts exactly one comes first, unless they are the same text: the
/// order of texts leaves no two different texts unordered, and puts no text
/// before itself.
pub proof fn law_text_order_is_total(a: Seq<char>, b: Seq<char>)
    ensures
        a == b <==> !text_below(a, b) && !text_below(b, a),
        !(text_below(a, b) && text_below(b, a)),
{
    let x = vstd::utf8::encode_utf8(a);
    let y = vstd::utf8::encode_utf8(b);
    vstd::utf8::encode_utf8_decode_utf8(a);
    vstd::utf8::encode_utf8_decode_utf8(b);
    if !bytes_below(x, y) && !bytes_below(y, x) {
        let n = if x.len() <= y.len() {
            x.len()
        } else {
            y.len()
        };
        lemma_unordered_agree(x, y, n);
        if x.len() < y.len() {
            assert(parts_below_at(x, y, x.len() as int));
        }
        if y.len() < x.len() {
            assert(parts_below_at(y, x, y.len() as int));
        }
        assert(x =~= y);
    }
    if a == b {
        assert forall|k: int| !parts_below_at(x, x, k) by {}
    }
    if bytes_below(x, y) && bytes_below(y, x) {
        let k = choose|k: int| parts_below_at(x, y, k);
        let l = choose|l: int| parts_below_at(y, x, l);
        if k < l {
            assert(y[k] == x[k]);
        } else if l < k {
            assert(x[l] == y[l]);
        }
    }
}

/// The words that a text is hashed as: its UTF-8 bytes, one word each.
pub open spec fn text_words(s: Seq<char>) -> Seq<u64> {
    vstd::utf8::encode_utf8(s).map_values(|b: u8| b as u64)
}

/// The words that a text is hashed as.
pub fn byte_words(s: &str) -> (w: Vec<u64>)
    ensures
        w@ == text_words(s@),
{
    let bytes = s.as_bytes();
    let mut w: Vec<u64> = Vec::new();
    let mut i: usize = 0;
    while i < bytes.len()
        invariant
            i <= bytes@.len(),
            w@.len() == i,
            forall|j: int| 0 <= j < i ==> w@[j] == bytes@[j] as u64,
        decreases bytes@.len() - i,
    {
        w.push(bytes[i] as u64);
        i = i + 1;
    }
    assert(w@ =~= bytes@.map_values(|b: u8| b as u64));
    w
}

} // verus!
