//! Character-level helpers shared by the library: conversions between
//! strings and characters, whitespace, prefixes, and the lexicographic order
//! with the sort built on it.

use vstd::prelude::*;

verus! {

// ---------------------------------------------------------------------------
// Conversions
// ---------------------------------------------------------------------------

/// Appends one character to a string (`String::push`).
/// Trusted: the string afterwards holds its old characters and then `c`.
#[verifier::external_body]
pub(crate) fn push_char(s: &mut String, c: char)
    ensures
        final(s)@ == old(s)@.push(c),
{
    s.push(c);
}

/// The characters of `s`, in order.
pub fn chars_of(s: &str) -> (v: Vec<char>)
    ensures
        v@ == s@,
{
    let n = s.unicode_len();
    let mut v: Vec<char> = Vec::new();
    let mut i: usize = 0;
    while i < n
        invariant
            n == s@.len(),
            i <= n,
            v@ == s@.take(i as int),
        decreases n - i,
    {
        v.push(s.get_char(i));
        i = i + 1;
        assert(v@ =~= s@.take(i as int));
    }
    assert(v@ =~= s@);
    v
}

/// A string made of the characters `cs[lo..hi]`.
pub fn string_of(cs: &Vec<char>, lo: usize, hi: usize) -> (s: String)
    requires
        lo <= hi <= cs@.len(),
    ensures
        s@ == cs@.subrange(lo as int, hi as int),
{
    let mut s = String::new();
    let mut i: usize = lo;
    while i < hi
        invariant
            lo <= i <= hi <= cs@.len(),
            s@ == cs@.subrange(lo as int, i as int),
        decreases hi - i,
    {
        push_char(&mut s, cs[i]);
        i = i + 1;
        assert(s@ =~= cs@.subrange(lo as int, i as int));
    }
    s
}

/// A fresh string with the characters of `s`.
pub fn owned(s: &str) -> (r: String)
    ensures
        r@ == s@,
{
    let cs = chars_of(s);
    string_of(&cs, 0, cs.len())
}

// ---------------------------------------------------------------------------
// Whitespace
// ---------------------------------------------------------------------------

/// The Unicode `White_Space` property, which `char::is_whitespace` tests.
pub open spec fn is_ws(c: char) -> bool {
    ||| ('\t' <= c && c <= '\r')
    ||| c == ' '
    ||| c == '\u{85}'
    ||| c == '\u{a0}'
    ||| c == '\u{1680}'
    ||| ('\u{2000}' <= c && c <= '\u{200a}')
    ||| c == '\u{2028}'
    ||| c == '\u{2029}'
    ||| c == '\u{202f}'
    ||| c == '\u{205f}'
    ||| c == '\u{3000}'
}

/// Whether `c` is Unicode whitespace.
pub fn is_whitespace(c: char) -> (b: bool)
    ensures
        b == is_ws(c),
{
    ('\t' <= c && c <= '\r') || c == ' ' || c == '\u{85}' || c == '\u{a0}' || c == '\u{1680}'
        || ('\u{2000}' <= c && c <= '\u{200a}') || c == '\u{2028}' || c == '\u{2029}'
        || c == '\u{202f}' || c == '\u{205f}' || c == '\u{3000}'
}

/// `s` with the leading and the trailing whitespace removed (`str::trim`):
/// the range from the first to the last character that is not whitespace.
pub open spec fn trimmed(s: Seq<char>) -> Seq<char> {
    if forall|i: int| 0 <= i < s.len() ==> is_ws(#[trigger] s[i]) {
        Seq::empty()
    } else {
        let lo = choose|lo: int|
            0 <= lo < s.len() && !is_ws(s[lo]) && forall|k: int| 0 <= k < lo ==> is_ws(#[trigger] s[k]);
        let hi = choose|hi: int|
            0 <= hi < s.len() && !is_ws(s[hi]) && forall|k: int| hi < k < s.len() ==> is_ws(#[trigger] s[k]);
        s.subrange(lo, hi + 1)
    }
}

/// The characters of `s` with the whitespace at both ends removed.
pub fn trim(s: &str) -> (r: String)
    ensures
        r@ == trimmed(s@),
{
    let cs = chars_of(s);
    let n = cs.len();
    let mut lo: usize = 0;
    while lo < n && is_whitespace(cs[lo])
        invariant
            lo <= n == cs@.len(),
            forall|k: int| 0 <= k < lo ==> is_ws(#[trigger] cs@[k]),
        decreases n - lo,
    {
        lo = lo + 1;
    }
    if lo == n {
        return String::new();
    }
    let mut hi: usize = n - 1;
    while is_whitespace(cs[hi])
        invariant
            lo <= hi < n == cs@.len(),
            !is_ws(cs@[lo as int]),
            forall|k: int| hi < k < n ==> is_ws(#[trigger] cs@[k]),
        decreases hi,
    {
        hi = hi - 1;
    }
    proof {
        let s = cs@;
        assert(!is_ws(s[lo as int]));
        let l2 = choose|l2: int|
            0 <= l2 < s.len() && !is_ws(s[l2]) && forall|k: int| 0 <= k < l2 ==> is_ws(#[trigger] s[k]);
        assert(l2 == lo) by {
            if l2 < lo {
                assert(is_ws(s[l2]));
            } else if l2 > lo {
                assert(is_ws(s[lo as int]));
            }
        }
        let h2 = choose|h2: int|
            0 <= h2 < s.len() && !is_ws(s[h2]) && forall|k: int| h2 < k < s.len() ==> is_ws(#[trigger] s[k]);
        assert(h2 == hi) by {
            if h2 < hi {
                assert(is_ws(s[hi as int]));
            } else if h2 > hi {
                assert(is_ws(s[h2]));
            }
        }
    }
    string_of(&cs, lo, hi + 1)
}

// ---------------------------------------------------------------------------
// Words
// ---------------------------------------------------------------------------

/// The words of `t` (`str::split_whitespace`): its longest runs of
/// characters that are not whitespace, in order.
pub open spec fn words(t: Seq<char>) -> Seq<Seq<char>>
    decreases t.len(),
{
    if t.len() == 0 {
        Seq::empty()
    } else {
        let w = words(t.drop_last());
        let c = t.last();
        if is_ws(c) {
            w
        } else if t.len() >= 2 && !is_ws(t[t.len() - 2]) {
            w.update(w.len() - 1, w.last().push(c))
        } else {
            w.push(seq![c])
        }
    }
}

/// The words of the first `hi` characters of `cs`.
pub fn words_of(cs: &Vec<char>, hi: usize) -> (r: Vec<String>)
    requires
        hi <= cs@.len(),
    ensures
        r.deep_view() == words(cs@.take(hi as int)),
{
    let mut out: Vec<String> = Vec::new();
    let mut start: usize = 0;
    let mut in_word = false;
    let mut k: usize = 0;
    assert(cs@.take(0) =~= Seq::<char>::empty());
    assert(out.deep_view() =~= Seq::<Seq<char>>::empty());
    while k < hi
        invariant
            hi <= cs@.len(),
            start <= k <= hi,
            in_word ==> k > 0 && !is_ws(cs@[k - 1]) && start < k,
            !in_word ==> k == 0 || is_ws(cs@[k - 1]),
            in_word ==> words(cs@.take(k as int)) == out.deep_view().push(cs@.subrange(start as int, k as int)),
            !in_word ==> words(cs@.take(k as int)) == out.deep_view(),
        decreases hi - k,
    {
        let c = cs[k];
        proof {
            let t = cs@.take(k + 1);
            assert(t.drop_last() =~= cs@.take(k as int));
            assert(t.last() == c);
            if k >= 1 {
                assert(t[t.len() - 2] == cs@[k - 1]);
            }
        }
        if is_whitespace(c) {
            if in_word {
                let w = string_of(cs, start, k);
                let ghost prev = out.deep_view();
                out.push(w);
                assert(out.deep_view() =~= prev.push(w@));
                in_word = false;
            }
        } else {
            if in_word {
                proof {
                    let prev = out.deep_view().push(cs@.subrange(start as int, k as int));
                    assert(cs@.subrange(start as int, k as int).push(c) =~= cs@.subrange(start as int, k + 1));
                    assert(prev.update(prev.len() - 1, prev.last().push(c))
                        =~= out.deep_view().push(cs@.subrange(start as int, k + 1)));
                }
            } else {
                start = k;
                assert(cs@.subrange(start as int, k + 1) =~= seq![c]);
            }
            in_word = true;
        }
        k = k + 1;
    }
    if in_word {
        let w = string_of(cs, start, hi);
        let ghost prev = out.deep_view();
        out.push(w);
        assert(out.deep_view() =~= prev.push(w@));
    }
    out
}

// ---------------------------------------------------------------------------
// Splitting
// ---------------------------------------------------------------------------

/// The pieces of `s` between the occurrences of `sep` (`str::split` with a
/// character pattern): one more piece than there are separators, each
/// possibly empty.
pub open spec fn split_on(s: Seq<char>, sep: char) -> Seq<Seq<char>>
    decreases s.len(),
{
    if s.len() == 0 {
        seq![Seq::empty()]
    } else {
        let p = split_on(s.drop_last(), sep);
        if s.last() == sep {
            p.push(Seq::empty())
        } else {
            p.update(p.len() - 1, p.last().push(s.last()))
        }
    }
}

/// There is always at least one piece.
pub proof fn lemma_split_on_len(s: Seq<char>, sep: char)
    ensures
        split_on(s, sep).len() >= 1,
    decreases s.len(),
{
    if s.len() > 0 {
        lemma_split_on_len(s.drop_last(), sep);
    }
}

/// The pieces of `s` between the occurrences of `sep`.
pub fn split_str(s: &str, sep: char) -> (r: Vec<String>)
    ensures
        r.deep_view() == split_on(s@, sep),
{
    let cs = chars_of(s);
    let n = cs.len();
    let mut out: Vec<String> = Vec::new();
    let mut start: usize = 0;
    let mut k: usize = 0;
    assert(cs@.take(0) =~= Seq::<char>::empty());
    while k < n
        invariant
            n == cs@.len(),
            start <= k <= n,
            cs@ == s@,
            split_on(cs@.take(k as int), sep) == out.deep_view().push(cs@.subrange(start as int, k as int)),
        decreases n - k,
    {
        proof {
            lemma_split_on_len(cs@.take(k as int), sep);
            assert(cs@.take(k + 1).drop_last() =~= cs@.take(k as int));
            assert(cs@.take(k + 1).last() == cs@[k as int]);
        }
        if cs[k] == sep {
            let piece = string_of(&cs, start, k);
            let ghost prev = out.deep_view();
            out.push(piece);
            assert(out.deep_view() =~= prev.push(piece@));
            k = k + 1;
            start = k;
            assert(cs@.subrange(start as int, k as int) =~= Seq::<char>::empty());
        } else {
            k = k + 1;
            assert(cs@.subrange(start as int, k as int) =~= cs@.subrange(start as int, k - 1).push(cs@[k - 1]));
            assert(split_on(cs@.take(k as int), sep) =~= out.deep_view().push(cs@.subrange(start as int, k as int)));
        }
    }
    let last = string_of(&cs, start, n);
    let ghost prev = out.deep_view();
    out.push(last);
    assert(out.deep_view() =~= prev.push(last@));
    assert(cs@.take(n as int) =~= cs@);
    out
}

/// `l` without one trailing carriage return.
pub open spec fn strip_cr(l: Seq<char>) -> Seq<char> {
    if l.len() > 0 && l.last() == '\r' {
        l.drop_last()
    } else {
        l
    }
}

/// The lines of `s` (`str::lines`): the pieces between the line feeds,
/// each that ended in a line feed without a carriage return before it; a
/// final empty piece, after a last line feed or in an empty text, is no line.
pub open spec fn text_lines(s: Seq<char>) -> Seq<Seq<char>> {
    let p = split_on(s, '\n');
    let body = p.drop_last().map_values(|l: Seq<char>| strip_cr(l));
    if p.last().len() == 0 {
        body
    } else {
        body.push(p.last())
    }
}

/// The lines of `s` (see `text_lines`).
pub fn lines(s: &str) -> (r: Vec<String>)
    ensures
        r.deep_view() == text_lines(s@),
{
    let pieces = split_str(s, '\n');
    proof { lemma_split_on_len(s@, '\n'); }
    let n = pieces.len();
    let mut out: Vec<String> = Vec::new();
    let mut i: usize = 0;
    let ghost p = split_on(s@, '\n');
    while i + 1 < n
        invariant
            n == pieces@.len(),
            n >= 1,
            i + 1 <= n,
            pieces.deep_view() == p,
            out.deep_view() == p.drop_last().take(i as int).map_values(|l: Seq<char>| strip_cr(l)),
        decreases n - i,
    {
        let cs = chars_of(pieces[i].as_str());
        let m = cs.len();
        let line = if m > 0 && cs[m - 1] == '\r' { string_of(&cs, 0, m - 1) } else { string_of(&cs, 0, m) };
        proof {
            assert(p[i as int] == pieces@[i as int]@);
            assert(cs@.subrange(0, m as int) =~= cs@);
            assert(cs@.subrange(0, m - 1) =~= cs@.drop_last());
            assert(line@ == strip_cr(p[i as int]));
        }
        let ghost prev = out.deep_view();
        out.push(line);
        i = i + 1;
        assert(out.deep_view() =~= prev.push(line@));
        assert(out.deep_view() =~= p.drop_last().take(i as int).map_values(|l: Seq<char>| strip_cr(l)));
    }
    assert(p.drop_last().take(i as int) =~= p.drop_last());
    let last_len = pieces[n - 1].unicode_len();
    assert(p.last() == pieces@[n - 1]@);
    if last_len > 0 {
        let last = pieces[n - 1].clone();
        let ghost prev = out.deep_view();
        out.push(last);
        assert(out.deep_view() =~= prev.push(last@));
    }
    out
}

// ---------------------------------------------------------------------------
// Prefixes and equality
// ---------------------------------------------------------------------------

/// `p` is a prefix of `s`.
pub open spec fn has_prefix(s: Seq<char>, p: Seq<char>) -> bool {
    p.len() <= s.len() && s.subrange(0, p.len() as int) == p
}

/// Whether `s` starts with `p` (`str::starts_with` on a string pattern).
pub fn starts_with(s: &str, p: &str) -> (b: bool)
    ensures
        b == has_prefix(s@, p@),
{
    let n = s.unicode_len();
    let m = p.unicode_len();
    if m > n {
        return false;
    }
    let mut i: usize = 0;
    while i < m
        invariant
            n == s@.len(),
            m == p@.len(),
            m <= n,
            i <= m,
            s@.subrange(0, i as int) == p@.subrange(0, i as int),
        decreases m - i,
    {
        if s.get_char(i) != p.get_char(i) {
            assert(s@.subrange(0, m as int)[i as int] != p@[i as int]);
            return false;
        }
        i = i + 1;
        assert(s@.subrange(0, i as int) =~= p@.subrange(0, i as int));
    }
    assert(p@.subrange(0, m as int) =~= p@);
    true
}

/// Whether `a` and `b` hold the same characters.
pub fn str_eq(a: &str, b: &str) -> (r: bool)
    ensures
        r == (a@ == b@),
{
    let n = a.unicode_len();
    let m = b.unicode_len();
    if n != m {
        return false;
    }
    let r = starts_with(a, b);
    assert(a@.subrange(0, n as int) =~= a@);
    r
}

// ---------------------------------------------------------------------------
// The lexicographic order
// ---------------------------------------------------------------------------

/// `a` comes before `b` or equals it, comparing characters by their code
/// points from the left; a proper prefix comes first. For strings this is
/// the order of `Ord for str`, which compares the UTF-8 bytes, since UTF-8
/// keeps the order of code points.
pub open spec fn lex_le(a: Seq<char>, b: Seq<char>) -> bool
    decreases a.len(),
{
    if a.len() == 0 {
        true
    } else if b.len() == 0 {
        false
    } else if a[0] != b[0] {
        a[0] < b[0]
    } else {
        lex_le(a.drop_first(), b.drop_first())
    }
}

/// Any two strings are ordered one way or the other.
pub proof fn lemma_lex_total(a: Seq<char>, b: Seq<char>)
    ensures
        lex_le(a, b) || lex_le(b, a),
    decreases a.len(),
{
    if a.len() > 0 && b.len() > 0 && a[0] == b[0] {
        lemma_lex_total(a.drop_first(), b.drop_first());
    }
}

/// The order is transitive.
pub proof fn lemma_lex_trans(a: Seq<char>, b: Seq<char>, c: Seq<char>)
    requires
        lex_le(a, b),
        lex_le(b, c),
    ensures
        lex_le(a, c),
    decreases a.len(),
{
    if a.len() > 0 && b.len() > 0 && c.len() > 0 && a[0] == b[0] && b[0] == c[0] {
        lemma_lex_trans(a.drop_first(), b.drop_first(), c.drop_first());
    }
}

/// The order is antisymmetric: two strings ordered both ways are equal.
pub proof fn lemma_lex_antisym(a: Seq<char>, b: Seq<char>)
    requires
        lex_le(a, b),
        lex_le(b, a),
    ensures
        a == b,
    decreases a.len(),
{
    if a.len() > 0 && b.len() > 0 {
        lemma_lex_antisym(a.drop_first(), b.drop_first());
        assert(a =~= seq![a[0]] + a.drop_first());
        assert(b =~= seq![b[0]] + b.drop_first());
    } else {
        assert(a =~= b);
    }
}

proof fn lemma_lex_skip(a: Seq<char>, b: Seq<char>, i: int)
    requires
        0 <= i < a.len(),
        i < b.len(),
        a[i] == b[i],
    ensures
        lex_le(a.skip(i), b.skip(i)) == lex_le(a.skip(i + 1), b.skip(i + 1)),
{
    assert(a.skip(i).drop_first() =~= a.skip(i + 1));
    assert(b.skip(i).drop_first() =~= b.skip(i + 1));
}

/// Whether `a` comes before `b` or equals it, by `lex_le`.
pub fn lex_le_str(a: &str, b: &str) -> (r: bool)
    ensures
        r == lex_le(a@, b@),
{
    let n = a.unicode_len();
    let m = b.unicode_len();
    let mut i: usize = 0;
    assert(a@.skip(0) =~= a@);
    assert(b@.skip(0) =~= b@);
    loop
        invariant
            n == a@.len(),
            m == b@.len(),
            i <= n,
            i <= m,
            lex_le(a@, b@) == lex_le(a@.skip(i as int), b@.skip(i as int)),
        decreases n - i,
    {
        if i == n {
            return true;
        }
        if i == m {
            return false;
        }
        let ca = a.get_char(i);
        let cb = b.get_char(i);
        if ca != cb {
            return ca < cb;
        }
        proof {
            lemma_lex_skip(a@, b@, i as int);
        }
        i = i + 1;
    }
}

// ---------------------------------------------------------------------------
// Sorting
// ---------------------------------------------------------------------------

/// Every string of `s` comes before or equals every later one.
pub open spec fn sorted(s: Seq<Seq<char>>) -> bool {
    forall|i: int, j: int| 0 <= i < j < s.len() ==> lex_le(#[trigger] s[i], #[trigger] s[j])
}

/// `x` placed into `s` just before the first element that it does not come
/// after.
pub open spec fn insert_sorted(x: Seq<char>, s: Seq<Seq<char>>) -> Seq<Seq<char>>
    decreases s.len(),
{
    if s.len() == 0 {
        seq![x]
    } else if lex_le(x, s[0]) {
        seq![x] + s
    } else {
        seq![s[0]] + insert_sorted(x, s.drop_first())
    }
}

/// `s` in ascending lexicographic order (insertion sort; equal strings are
/// indistinguishable, so this is the one sorted rearrangement of `s`).
pub open spec fn sort_strs(s: Seq<Seq<char>>) -> Seq<Seq<char>>
    decreases s.len(),
{
    if s.len() == 0 {
        s
    } else {
        insert_sorted(s.last(), sort_strs(s.drop_last()))
    }
}

proof fn lemma_insert_at(x: Seq<char>, s: Seq<Seq<char>>, j: int)
    requires
        0 <= j <= s.len(),
        forall|k: int| 0 <= k < j ==> !lex_le(x, #[trigger] s[k]),
        j < s.len() ==> lex_le(x, s[j]),
    ensures
        insert_sorted(x, s) == s.insert(j, x),
    decreases s.len(),
{
    if s.len() == 0 {
        assert(s.insert(j, x) =~= seq![x]);
    } else if j == 0 {
        assert(s.insert(j, x) =~= seq![x] + s);
    } else {
        assert(!lex_le(x, s[0]));
        lemma_insert_at(x, s.drop_first(), j - 1);
        assert(s.insert(j, x) =~= seq![s[0]] + s.drop_first().insert(j - 1, x));
    }
}

proof fn lemma_insert_sorted_props(x: Seq<char>, s: Seq<Seq<char>>)
    requires
        sorted(s),
    ensures
        sorted(insert_sorted(x, s)),
        insert_sorted(x, s).to_multiset() == s.to_multiset().insert(x),
        insert_sorted(x, s).len() == s.len() + 1,
    decreases s.len(),
{
    broadcast use vstd::seq_lib::group_to_multiset_ensures;
    if s.len() == 0 {
        assert(seq![x] =~= Seq::<Seq<char>>::empty().push(x));
    } else if lex_le(x, s[0]) {
        let r = seq![x] + s;
        assert forall|i: int, j: int| 0 <= i < j < r.len() implies lex_le(#[trigger] r[i], #[trigger] r[j]) by {
            if i == 0 {
                if j > 1 {
                    lemma_lex_trans(x, s[0], s[j - 1]);
                }
            } else {
                assert(r[i] == s[i - 1] && r[j] == s[j - 1]);
            }
        }
        vstd::seq_lib::lemma_multiset_commutative(seq![x], s);
        assert(seq![x] =~= Seq::<Seq<char>>::empty().push(x));
        assert(s.to_multiset().insert(x) =~= seq![x].to_multiset().add(s.to_multiset()));
    } else {
        let t = s.drop_first();
        assert(sorted(t)) by {
            assert forall|i: int, j: int| 0 <= i < j < t.len() implies lex_le(#[trigger] t[i], #[trigger] t[j]) by {
                assert(t[i] == s[i + 1] && t[j] == s[j + 1]);
            }
        }
        lemma_insert_sorted_props(x, t);
        let it = insert_sorted(x, t);
        let r = seq![s[0]] + it;
        lemma_lex_total(x, s[0]);
        assert forall|i: int, j: int| 0 <= i < j < r.len() implies lex_le(#[trigger] r[i], #[trigger] r[j]) by {
            if i == 0 {
                // r[j] is x or some element of t, all after s[0]
                assert(it.to_multiset().count(r[j]) > 0);
                assert(s.to_multiset().insert(x).count(r[j]) > 0);
                if r[j] != x {
                    assert(s.to_multiset().count(r[j]) > 0);
                    let k = choose|k: int| 0 <= k < s.len() && s[k] == r[j];
                    if k > 0 {
                        assert(lex_le(s[0], s[k]));
                    }
                }
            } else {
                assert(r[i] == it[i - 1] && r[j] == it[j - 1]);
            }
        }
        vstd::seq_lib::lemma_multiset_commutative(seq![s[0]], it);
        vstd::seq_lib::lemma_multiset_commutative(seq![s[0]], t);
        assert(s =~= seq![s[0]] + t);
    }
}

/// Sorting gives a sorted rearrangement of its input: the same strings,
/// each as often, in ascending order.
pub proof fn lemma_sort_strs(s: Seq<Seq<char>>)
    ensures
        sorted(sort_strs(s)),
        sort_strs(s).to_multiset() == s.to_multiset(),
        sort_strs(s).len() == s.len(),
    decreases s.len(),
{
    broadcast use vstd::seq_lib::group_to_multiset_ensures;
    if s.len() == 0 {
    } else {
        lemma_sort_strs(s.drop_last());
        lemma_insert_sorted_props(s.last(), sort_strs(s.drop_last()));
        assert(s =~= s.drop_last().push(s.last()));
    }
}

/// A sorted rearrangement is unique: two sorted lists with the same strings,
/// each as often, are equal. So `sort_strs(s)` is the only sorted
/// rearrangement of `s`.
pub proof fn lemma_sorted_unique(a: Seq<Seq<char>>, b: Seq<Seq<char>>)
    requires
        sorted(a),
        sorted(b),
        a.to_multiset() == b.to_multiset(),
    ensures
        a == b,
    decreases a.len(),
{
    broadcast use vstd::seq_lib::group_to_multiset_ensures;
    assert(a.to_multiset().len() == a.len());
    assert(b.to_multiset().len() == b.len());
    if a.len() == 0 {
        assert(b.len() == 0);
        assert(a =~= b);
    } else {
        assert(b.len() == a.len());
        assert(a.to_multiset().count(b[0]) > 0);
        assert(b.to_multiset().count(a[0]) > 0);
        let i = choose|i: int| 0 <= i < a.len() && a[i] == b[0];
        let j = choose|j: int| 0 <= j < b.len() && b[j] == a[0];
        if i > 0 {
            assert(lex_le(a[0], a[i]));
        } else {
            lemma_lex_refl(a[0]);
        }
        if j > 0 {
            assert(lex_le(b[0], b[j]));
        } else {
            lemma_lex_refl(b[0]);
        }
        lemma_lex_antisym(a[0], b[0]);
        let ra = a.drop_first();
        let rb = b.drop_first();
        assert(a =~= seq![a[0]] + ra);
        assert(b =~= seq![b[0]] + rb);
        vstd::seq_lib::lemma_multiset_commutative(seq![a[0]], ra);
        vstd::seq_lib::lemma_multiset_commutative(seq![b[0]], rb);
        assert(ra.to_multiset() =~= rb.to_multiset()) by {
            assert forall|x: Seq<char>| ra.to_multiset().count(x) == rb.to_multiset().count(x) by {
                assert(a.to_multiset().count(x) == seq![a[0]].to_multiset().count(x) + ra.to_multiset().count(x));
                assert(b.to_multiset().count(x) == seq![b[0]].to_multiset().count(x) + rb.to_multiset().count(x));
            }
        }
        assert(sorted(ra)) by {
            assert forall|p: int, q: int| 0 <= p < q < ra.len() implies lex_le(#[trigger] ra[p], #[trigger] ra[q]) by {
                assert(ra[p] == a[p + 1] && ra[q] == a[q + 1]);
            }
        }
        assert(sorted(rb)) by {
            assert forall|p: int, q: int| 0 <= p < q < rb.len() implies lex_le(#[trigger] rb[p], #[trigger] rb[q]) by {
                assert(rb[p] == b[p + 1] && rb[q] == b[q + 1]);
            }
        }
        lemma_sorted_unique(ra, rb);
    }
}

/// Every string comes before or equals itself.
pub proof fn lemma_lex_refl(a: Seq<char>)
    ensures
        lex_le(a, a),
    decreases a.len(),
{
    if a.len() > 0 {
        lemma_lex_refl(a.drop_first());
    }
}

/// The strings of `v`, sorted in ascending lexicographic order.
pub fn sort_strings(v: &Vec<String>) -> (r: Vec<String>)
    ensures
        r.deep_view() == sort_strs(v.deep_view()),
{
    let n = v.len();
    let mut out: Vec<String> = Vec::new();
    let mut i: usize = 0;
    assert(v.deep_view().take(0) =~= Seq::<Seq<char>>::empty());
    assert(out.deep_view() =~= Seq::<Seq<char>>::empty());
    while i < n
        invariant
            n == v@.len(),
            i <= n,
            out.deep_view() == sort_strs(v.deep_view().take(i as int)),
        decreases n - i,
    {
        let x = v[i].clone();
        let m = out.len();
        let mut j: usize = 0;
        while j < m && !lex_le_str(x.as_str(), out[j].as_str())
            invariant
                m == out@.len(),
                j <= m,
                forall|k: int| 0 <= k < j ==> !lex_le(x@, #[trigger] out.deep_view()[k]),
            decreases m - j,
        {
            j = j + 1;
        }
        let ghost before = out.deep_view();
        proof {
            lemma_insert_at(x@, before, j as int);
        }
        out.insert(j, x);
        proof {
            let vv = v.deep_view();
            assert(vv.take(i + 1).drop_last() =~= vv.take(i as int));
            assert(vv.take(i + 1).last() == vv[i as int]);
            assert(out.deep_view() =~= before.insert(j as int, x@));
        }
        i = i + 1;
    }
    assert(v.deep_view().take(n as int) =~= v.deep_view());
    out
}

} // verus!
