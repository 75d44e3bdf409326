//! Text as sequences of characters: finding a pattern, trimming whitespace, and building a
//! `String` from a range of characters.

use vstd::prelude::*;

verus! {

broadcast use vstd::string::axiom_spec_iter;

/// The characters of `s`, in order.
pub fn chars_of(s: &str) -> (r: Vec<char>)
    ensures
        r@ == s@,
{
    let mut out: Vec<char> = Vec::new();
    for c in it: s.chars()
        invariant
            it.seq() == s@,
            out@ == s@.take(it.index() as int),
    {
        assert(s@.take(it.index() + 1) =~= s@.take(it.index() as int).push(c));
        out.push(c);
    }
    assert(out@ =~= s@);
    out
}

/// Relies on String::push: it appends one character at the end.
#[verifier::external_body]
fn push_char(s: &mut String, c: char)
    ensures
        final(s)@ == old(s)@.push(c),
{
    s.push(c)
}

/// The text made of the characters `v[lo..hi]`.
pub fn string_of_range(v: &Vec<char>, lo: usize, hi: usize) -> (r: String)
    requires
        lo <= hi <= v.len(),
    ensures
        r@ == v@.subrange(lo as int, hi as int),
{
    let mut out = String::new();
    let mut i: usize = lo;
    while i < hi
        invariant
            lo <= i <= hi <= v.len(),
            out@ == v@.subrange(lo as int, i as int),
        decreases hi - i,
    {
        push_char(&mut out, v[i]);
        assert(v@.subrange(lo as int, i + 1) =~= v@.subrange(lo as int, i as int).push(v@[i as int]));
        i += 1;
    }
    out
}

} // verus!

verus! {

/// `p` stands in `s` starting at position `i`.
pub open spec fn occurs_at(s: Seq<char>, p: Seq<char>, i: int) -> bool {
    0 <= i && i + p.len() <= s.len() && s.subrange(i, i + p.len()) == p
}

/// `p` stands somewhere in `s`.
pub open spec fn contains(s: Seq<char>, p: Seq<char>) -> bool {
    exists|i: int| occurs_at(s, p, i)
}

/// `i` is the position of the first occurrence of `p` in `s`.
pub open spec fn is_first_at(s: Seq<char>, p: Seq<char>, i: int) -> bool {
    &&& occurs_at(s, p, i)
    &&& forall|j: int| 0 <= j < i ==> !occurs_at(s, p, j)
}

/// The part of `s` before the first occurrence of `p`; all of `s` where `p` does not occur.
pub open spec fn before(s: Seq<char>, p: Seq<char>) -> Seq<char> {
    if exists|i: int| is_first_at(s, p, i) {
        s.take(choose|i: int| is_first_at(s, p, i))
    } else {
        s
    }
}

/// Unicode `White_Space` characters.
pub open spec fn is_whitespace(c: char) -> bool {
    ||| '\u{9}' <= c <= '\u{d}'
    ||| c == ' '
    ||| c == '\u{85}'
    ||| c == '\u{a0}'
    ||| c == '\u{1680}'
    ||| '\u{2000}' <= c <= '\u{200a}'
    ||| c == '\u{2028}'
    ||| c == '\u{2029}'
    ||| c == '\u{202f}'
    ||| c == '\u{205f}'
    ||| c == '\u{3000}'
}

pub open spec fn trim_start(s: Seq<char>) -> Seq<char>
    decreases s.len(),
{
    if s.len() > 0 && is_whitespace(s[0]) {
        trim_start(s.drop_first())
    } else {
        s
    }
}

pub open spec fn trim_end(s: Seq<char>) -> Seq<char>
    decreases s.len(),
{
    if s.len() > 0 && is_whitespace(s.last()) {
        trim_end(s.drop_last())
    } else {
        s
    }
}

/// `s` without its leading and trailing whitespace.
pub open spec fn trim(s: Seq<char>) -> Seq<char> {
    trim_end(trim_start(s))
}

pub fn is_whitespace_char(c: char) -> (r: bool)
    ensures
        r == is_whitespace(c),
{
    ('\u{9}' <= c && c <= '\u{d}') || c == ' ' || c == '\u{85}' || c == '\u{a0}' || c
        == '\u{1680}' || ('\u{2000}' <= c && c <= '\u{200a}') || c == '\u{2028}' || c
        == '\u{2029}' || c == '\u{202f}' || c == '\u{205f}' || c == '\u{3000}'
}

/// Whether `p` stands in `v` at position `i`, within the bound `hi`.
fn matches_at(v: &Vec<char>, hi: usize, p: &Vec<char>, i: usize) -> (r: bool)
    requires
        i <= hi <= v.len(),
    ensures
        r == occurs_at(v@.subrange(0, hi as int), p@, i as int),
{
    if p.len() > hi - i {
        return false;
    }
    let mut k: usize = 0;
    while k < p.len()
        invariant
            i + p.len() <= hi <= v.len(),
            k <= p.len(),
            forall|m: int| 0 <= m < k ==> v@[i + m] == p@[m],
        decreases p.len() - k,
    {
        if v[i + k] != p[k] {
            assert(v@.subrange(0, hi as int).subrange(i as int, i + p.len())[k as int] != p@[k as int]);
            return false;
        }
        k += 1;
    }
    assert(v@.subrange(0, hi as int).subrange(i as int, i + p.len()) =~= p@);
    true
}

/// The length of `before(v[lo..hi], p)`: where `p` first stands in `v[lo..hi]`, or that range's length.
pub fn before_len(v: &Vec<char>, lo: usize, hi: usize, p: &Vec<char>) -> (r: usize)
    requires
        lo <= hi <= v.len(),
    ensures
        r <= hi - lo,
        before(v@.subrange(lo as int, hi as int), p@) == v@.subrange(lo as int, hi as int).take(
            r as int,
        ),
{
    let ghost s = v@.subrange(lo as int, hi as int);
    let mut i: usize = lo;
    while i < hi
        invariant
            lo <= i <= hi <= v.len(),
            s == v@.subrange(lo as int, hi as int),
            forall|j: int| 0 <= j < i - lo ==> !occurs_at(s, p@, j),
        decreases hi - i,
    {
        let m = matches_at(v, hi, p, i);
        proof {
            let t = v@.subrange(0, hi as int);
            if occurs_at(s, p@, i - lo) {
                assert(t.subrange(i as int, i + p.len()) =~= s.subrange(i - lo, i - lo + p.len()));
            } else if occurs_at(t, p@, i as int) {
                assert(t.subrange(i as int, i + p.len()) =~= s.subrange(i - lo, i - lo + p.len()));
            }
        }
        if m {
            let r = i - lo;
            proof {
                assert(is_first_at(s, p@, r as int));
                let c = choose|c: int| is_first_at(s, p@, c);
                assert(c == r) by {
                    if c < r {
                        assert(!occurs_at(s, p@, c));
                    } else if r < c {
                        assert(!occurs_at(s, p@, r as int));
                    }
                }
            }
            return r;
        }
        i += 1;
    }
    proof {
        if exists|c: int| is_first_at(s, p@, c) {
            let c = choose|c: int| is_first_at(s, p@, c);
            assert(occurs_at(s, p@, c));
        }
        assert(s.take(s.len() as int) =~= s);
    }
    hi - lo
}

/// The bounds of `trim(v[lo..hi])` within `v`.
pub fn trim_range(v: &Vec<char>, lo: usize, hi: usize) -> (r: (usize, usize))
    requires
        lo <= hi <= v.len(),
    ensures
        lo <= r.0 <= r.1 <= hi,
        v@.subrange(r.0 as int, r.1 as int) == trim(v@.subrange(lo as int, hi as int)),
{
    let mut a: usize = lo;
    while a < hi && is_whitespace_char(v[a])
        invariant
            lo <= a <= hi <= v.len(),
            trim_start(v@.subrange(a as int, hi as int)) == trim_start(
                v@.subrange(lo as int, hi as int),
            ),
        decreases hi - a,
    {
        assert(v@.subrange(a + 1, hi as int) =~= v@.subrange(a as int, hi as int).drop_first());
        a += 1;
    }
    let mut b: usize = hi;
    while b > a && is_whitespace_char(v[b - 1])
        invariant
            lo <= a <= b <= hi <= v.len(),
            trim_end(v@.subrange(a as int, b as int)) == trim(v@.subrange(lo as int, hi as int)),
        decreases b - a,
    {
        assert(v@.subrange(a as int, b - 1) =~= v@.subrange(a as int, b as int).drop_last());
        b -= 1;
    }
    (a, b)
}

} // verus!

verus! {

proof fn lemma_first_exists(s: Seq<char>, p: Seq<char>, j: int)
    requires
        occurs_at(s, p, j),
    ensures
        exists|i: int| is_first_at(s, p, i),
    decreases j,
{
    if exists|k: int| 0 <= k < j && occurs_at(s, p, k) {
        let k = choose|k: int| 0 <= k < j && occurs_at(s, p, k);
        lemma_first_exists(s, p, k);
    } else {
        assert(is_first_at(s, p, j));
    }
}

/// `before(s, p)` is a prefix of `s`.
pub proof fn lemma_before_is_prefix(s: Seq<char>, p: Seq<char>)
    ensures
        exists|k: int| 0 <= k <= s.len() && before(s, p) == #[trigger] s.subrange(0, k),
{
    if exists|i: int| is_first_at(s, p, i) {
        let i = choose|i: int| is_first_at(s, p, i);
        assert(before(s, p) == s.subrange(0, i));
    } else {
        assert(before(s, p) == s.subrange(0, s.len() as int));
    }
}

/// A non-empty `p` does not stand in `before(s, p)`.
pub proof fn lemma_before_excludes(s: Seq<char>, p: Seq<char>)
    requires
        p.len() > 0,
    ensures
        !contains(before(s, p), p),
{
    if exists|i: int| is_first_at(s, p, i) {
        let i = choose|i: int| is_first_at(s, p, i);
        let b = s.take(i);
        assert forall|j: int| !occurs_at(b, p, j) by {
            if occurs_at(b, p, j) {
                assert(b.subrange(j, j + p.len()) =~= s.subrange(j, j + p.len()));
                assert(occurs_at(s, p, j));
            }
        }
    } else {
        assert forall|j: int| !occurs_at(s, p, j) by {
            if occurs_at(s, p, j) {
                lemma_first_exists(s, p, j);
            }
        }
    }
}

/// What does not stand in `s` does not stand in a part of it.
pub proof fn lemma_excluded_from_part(s: Seq<char>, p: Seq<char>, a: int, b: int)
    requires
        0 <= a <= b <= s.len(),
        !contains(s, p),
    ensures
        !contains(s.subrange(a, b), p),
{
    let t = s.subrange(a, b);
    assert forall|j: int| !occurs_at(t, p, j) by {
        if occurs_at(t, p, j) {
            assert(t.subrange(j, j + p.len()) =~= s.subrange(a + j, a + j + p.len()));
            assert(occurs_at(s, p, a + j));
        }
    }
}

proof fn lemma_trim_start_is_suffix(s: Seq<char>)
    ensures
        exists|a: int| 0 <= a <= s.len() && trim_start(s) == #[trigger] s.subrange(a, s.len() as int),
    decreases s.len(),
{
    if s.len() > 0 && is_whitespace(s[0]) {
        lemma_trim_start_is_suffix(s.drop_first());
        let a = choose|a: int|
            0 <= a <= s.drop_first().len() && trim_start(s.drop_first()) == #[trigger] s.drop_first().subrange(
                a,
                s.drop_first().len() as int,
            );
        assert(s.drop_first().subrange(a, s.drop_first().len() as int) =~= s.subrange(
            a + 1,
            s.len() as int,
        ));
    } else {
        assert(s == s.subrange(0, s.len() as int));
    }
}

proof fn lemma_trim_end_is_prefix(s: Seq<char>)
    ensures
        exists|b: int| 0 <= b <= s.len() && trim_end(s) == #[trigger] s.subrange(0, b),
    decreases s.len(),
{
    if s.len() > 0 && is_whitespace(s.last()) {
        lemma_trim_end_is_prefix(s.drop_last());
        let b = choose|b: int|
            0 <= b <= s.drop_last().len() && trim_end(s.drop_last()) == #[trigger] s.drop_last().subrange(0, b);
        assert(s.drop_last().subrange(0, b) =~= s.subrange(0, b));
    } else {
        assert(s == s.subrange(0, s.len() as int));
    }
}

/// `trim(s)` is a part of `s`.
pub proof fn lemma_trim_is_part(s: Seq<char>)
    ensures
        exists|a: int, b: int| 0 <= a <= b <= s.len() && trim(s) == #[trigger] s.subrange(a, b),
{
    lemma_trim_start_is_suffix(s);
    let a = choose|a: int| 0 <= a <= s.len() && trim_start(s) == #[trigger] s.subrange(a, s.len() as int);
    let t = trim_start(s);
    lemma_trim_end_is_prefix(t);
    let b = choose|b: int| 0 <= b <= t.len() && trim_end(t) == #[trigger] t.subrange(0, b);
    assert(t.subrange(0, b) =~= s.subrange(a, a + b));
}

} // verus!
