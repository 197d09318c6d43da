//! Character-level string helpers: Unicode whitespace, trimming, whitespace
//! collapsing, ASCII lower-casing, substring search and prefix tests.
//!
//! Every helper works on the `Seq<char>` view of a string and states its result
//! over the spec functions of this module.
use vstd::prelude::*;

verus! {

/// The Unicode `White_Space` property (the set `char::is_whitespace` tests).
pub open spec fn is_white_space(c: char) -> bool {
    let u = c as u32;
    ||| (9 <= u && u <= 13)
    ||| u == 32
    ||| u == 0x85
    ||| u == 0xa0
    ||| u == 0x1680
    ||| (0x2000 <= u && u <= 0x200a)
    ||| u == 0x2028
    ||| u == 0x2029
    ||| u == 0x202f
    ||| u == 0x205f
    ||| u == 0x3000
}

/// `s` with its leading whitespace removed.
pub open spec fn trim_start(s: Seq<char>) -> Seq<char>
    decreases s.len(),
{
    if s.len() > 0 && is_white_space(s[0]) {
        trim_start(s.drop_first())
    } else {
        s
    }
}

/// `s` with its trailing whitespace removed.
pub open spec fn trim_end(s: Seq<char>) -> Seq<char>
    decreases s.len(),
{
    if s.len() > 0 && is_white_space(s.last()) {
        trim_end(s.drop_last())
    } else {
        s
    }
}

/// `s` with leading and trailing whitespace removed.
pub open spec fn trim(s: Seq<char>) -> Seq<char> {
    trim_end(trim_start(s))
}

/// The words of `s` (maximal runs of non-whitespace), joined by single spaces.
/// Defined by reading `s` from the left: a non-whitespace character either
/// continues the current word or starts a new one, which is separated from the
/// previous word by one space.
pub open spec fn collapse_whitespace(s: Seq<char>) -> Seq<char>
    decreases s.len(),
{
    if s.len() == 0 {
        seq![]
    } else {
        let prev = collapse_whitespace(s.drop_last());
        let c = s.last();
        if is_white_space(c) {
            prev
        } else if s.len() >= 2 && !is_white_space(s[s.len() - 2]) {
            prev.push(c)
        } else if prev.len() == 0 {
            seq![c]
        } else {
            prev.push(' ').push(c)
        }
    }
}

/// `t` is in the form that `collapse_whitespace` produces: no whitespace at
/// either end, and every whitespace character is a single space between two
/// non-whitespace characters.
pub open spec fn is_collapsed(t: Seq<char>) -> bool {
    &&& forall|i: int|
        0 <= i < t.len() && #[trigger] is_white_space(t[i]) ==> {
            &&& t[i] == ' '
            &&& 0 < i < t.len() - 1
            &&& !is_white_space(t[i - 1])
            &&& !is_white_space(t[i + 1])
        }
}

/// ASCII lower-casing of one character (`char::to_ascii_lowercase`).
pub open spec fn ascii_lower(c: char) -> char {
    if 'A' <= c && c <= 'Z' {
        ((c as u32) + 32) as char
    } else {
        c
    }
}

/// ASCII lower-casing of a character sequence.
pub open spec fn ascii_lowercase(s: Seq<char>) -> Seq<char> {
    s.map_values(|c: char| ascii_lower(c))
}

/// `needle` occurs in `hay` at position `i`.
pub open spec fn occurs_at(hay: Seq<char>, needle: Seq<char>, i: int) -> bool {
    0 <= i && i + needle.len() <= hay.len() && hay.subrange(i, i + needle.len()) == needle
}

/// `needle` occurs somewhere in `hay` (`str::contains`).
pub open spec fn seq_contains(hay: Seq<char>, needle: Seq<char>) -> bool {
    exists|i: int| occurs_at(hay, needle, i)
}

/// `s` begins with `prefix` (`str::starts_with`).
pub open spec fn starts_with(s: Seq<char>, prefix: Seq<char>) -> bool {
    prefix.len() <= s.len() && s.subrange(0, prefix.len() as int) == prefix
}

/// `s` with every trailing `c` removed (`str::trim_end_matches` with a char).
pub open spec fn strip_trailing(s: Seq<char>, c: char) -> Seq<char>
    decreases s.len(),
{
    if s.len() > 0 && s.last() == c {
        strip_trailing(s.drop_last(), c)
    } else {
        s
    }
}

/// Tests the Unicode `White_Space` property of `c`.
pub fn is_whitespace_char(c: char) -> (r: bool)
    ensures
        r == is_white_space(c),
{
    let u = c as u32;
    (9 <= u && u <= 13) || u == 32 || u == 0x85 || u == 0xa0 || u == 0x1680 || (0x2000 <= u && u
        <= 0x200a) || u == 0x2028 || u == 0x2029 || u == 0x202f || u == 0x205f || u == 0x3000
}

/// Appends one character to a `String` (`String::push`).
#[verifier::external_body]
pub(crate) fn push_char(s: &mut String, c: char)
    ensures
        final(s)@ == old(s)@.push(c),
{
    s.push(c);
}


/// An owned copy of a string slice (`str::to_owned`).
pub fn owned(s: &str) -> (r: String)
    ensures
        r@ == s@,
{
    s.to_owned()
}

/// The characters of `s`, in order.
pub fn to_chars(s: &str) -> (v: Vec<char>)
    ensures
        v@ == s@,
{
    let mut v: Vec<char> = Vec::new();
    for c in it: s.chars()
        invariant
            v@ == it.seq().take(it.index() as int),
            it.seq() == s@,
    {
        v.push(c);
    }
    v
}

/// The string made of `v[lo..hi]`.
pub fn string_from_range(v: &Vec<char>, lo: usize, hi: usize) -> (r: String)
    requires
        lo <= hi <= v.len(),
    ensures
        r@ == v@.subrange(lo as int, hi as int),
{
    let mut r = String::new();
    let mut i = lo;
    while i < hi
        invariant
            lo <= i <= hi <= v.len(),
            r@ == v@.subrange(lo as int, i as int),
        decreases hi - i,
    {
        push_char(&mut r, v[i]);
        i = i + 1;
        assert(r@ =~= v@.subrange(lo as int, i as int));
    }
    r
}

proof fn lemma_trim_start_skip(s: Seq<char>, k: int)
    requires
        0 <= k <= s.len(),
        forall|i: int| 0 <= i < k ==> is_white_space(#[trigger] s[i]),
    ensures
        trim_start(s) == trim_start(s.subrange(k, s.len() as int)),
    decreases k,
{
    if k == 0 {
        assert(s.subrange(0, s.len() as int) =~= s);
    } else {
        let d = s.drop_first();
        assert forall|i: int| 0 <= i < k - 1 implies is_white_space(#[trigger] d[i]) by {
            assert(d[i] == s[i + 1]);
        }
        lemma_trim_start_skip(d, k - 1);
        assert(d.subrange(k - 1, d.len() as int) =~= s.subrange(k, s.len() as int));
    }
}

proof fn lemma_trim_end_skip(s: Seq<char>, k: int)
    requires
        0 <= k <= s.len(),
        forall|i: int| s.len() - k <= i < s.len() ==> is_white_space(#[trigger] s[i]),
    ensures
        trim_end(s) == trim_end(s.subrange(0, s.len() - k)),
    decreases k,
{
    if k == 0 {
        assert(s.subrange(0, s.len() as int) =~= s);
    } else {
        let d = s.drop_last();
        assert forall|i: int| d.len() - (k - 1) <= i < d.len() implies is_white_space(
            #[trigger] d[i],
        ) by {
            assert(d[i] == s[i]);
        }
        lemma_trim_end_skip(d, k - 1);
        assert(d.subrange(0, d.len() - (k - 1)) =~= s.subrange(0, s.len() - k));
    }
}

/// `s` with leading and trailing Unicode whitespace removed (`str::trim`).
pub fn trim_str(s: &str) -> (r: String)
    ensures
        r@ == trim(s@),
{
    let v = to_chars(s);
    let n = v.len();
    let mut lo: usize = 0;
    while lo < n && is_whitespace_char(v[lo])
        invariant
            lo <= n,
            n == v.len(),
            forall|i: int| 0 <= i < lo ==> is_white_space(#[trigger] v@[i]),
        decreases n - lo,
    {
        lo = lo + 1;
    }
    let mut hi: usize = n;
    while hi > lo && is_whitespace_char(v[hi - 1])
        invariant
            lo <= hi <= n,
            n == v.len(),
            forall|i: int| hi <= i < n ==> is_white_space(#[trigger] v@[i]),
        decreases hi,
    {
        hi = hi - 1;
    }
    proof {
        let sv = v@;
        lemma_trim_start_skip(sv, lo as int);
        let t = sv.subrange(lo as int, n as int);
        if lo < n {
            assert(t[0] == sv[lo as int]);
        } else {
            assert(t.len() == 0);
        }
        assert(trim_start(sv) == t);
        assert forall|i: int| t.len() - (n - hi) <= i < t.len() implies is_white_space(
            #[trigger] t[i],
        ) by {
            assert(t[i] == sv[i + lo]);
        }
        lemma_trim_end_skip(t, (n - hi) as int);
        let u = t.subrange(0, t.len() - (n - hi));
        assert(u =~= sv.subrange(lo as int, hi as int));
        if hi > lo {
            assert(u.last() == sv[hi - 1]);
        }
        assert(trim_end(u) == u);
    }
    string_from_range(&v, lo, hi)
}

proof fn lemma_collapse_step(s: Seq<char>, i: int)
    requires
        0 <= i < s.len(),
    ensures
        collapse_whitespace(s.take(i + 1)) == {
            let prev = collapse_whitespace(s.take(i));
            let c = s[i];
            if is_white_space(c) {
                prev
            } else if i >= 1 && !is_white_space(s[i - 1]) {
                prev.push(c)
            } else if prev.len() == 0 {
                seq![c]
            } else {
                prev.push(' ').push(c)
            }
        },
{
    let t = s.take(i + 1);
    assert(t.drop_last() =~= s.take(i));
    assert(t.last() == s[i]);
    if i >= 1 {
        assert(t[t.len() - 2] == s[i - 1]);
    }
}

/// The words of `value` separated by single spaces: whitespace runs become one
/// space and leading and trailing whitespace is dropped.
pub fn collapse_whitespace_str(value: &str) -> (r: String)
    ensures
        r@ == collapse_whitespace(value@),
{
    let v = to_chars(value);
    let n = v.len();
    let mut out = String::new();
    let mut started = false;
    let mut i: usize = 0;
    assert(v@.take(0) =~= Seq::<char>::empty());
    while i < n
        invariant
            i <= n,
            n == v.len(),
            out@ == collapse_whitespace(v@.take(i as int)),
            started == (out@.len() > 0),
        decreases n - i,
    {
        proof {
            lemma_collapse_step(v@, i as int);
        }
        let c = v[i];
        if is_whitespace_char(c) {
        } else if i >= 1 && !is_whitespace_char(v[i - 1]) {
            push_char(&mut out, c);
        } else if !started {
            push_char(&mut out, c);
            started = true;
            assert(out@ =~= seq![c]);
        } else {
            push_char(&mut out, ' ');
            push_char(&mut out, c);
        }
        i = i + 1;
    }
    assert(v@.take(n as int) =~= v@);
    out
}

/// ASCII lower-casing (`str::to_ascii_lowercase`).
pub fn ascii_lowercase_str(s: &str) -> (r: Vec<char>)
    ensures
        r@ == ascii_lowercase(s@),
{
    let v = to_chars(s);
    let mut out: Vec<char> = Vec::new();
    let mut i: usize = 0;
    while i < v.len()
        invariant
            i <= v.len(),
            out@ == ascii_lowercase(v@.take(i as int)),
        decreases v.len() - i,
    {
        let c = v[i];
        let l = if 'A' <= c && c <= 'Z' {
            ((c as u32) + 32) as u8 as char
        } else {
            c
        };
        out.push(l);
        i = i + 1;
        assert(out@ =~= ascii_lowercase(v@.take(i as int)));
    }
    assert(v@.take(v.len() as int) =~= v@);
    out
}

/// Whether `needle` occurs at position `i` of `hay`.
fn matches_at(hay: &Vec<char>, needle: &Vec<char>, i: usize) -> (r: bool)
    requires
        i + needle.len() <= hay.len(),
    ensures
        r == occurs_at(hay@, needle@, i as int),
{
    let mut j: usize = 0;
    while j < needle.len()
        invariant
            j <= needle.len(),
            i + needle.len() <= hay.len(),
            forall|k: int| 0 <= k < j ==> hay@[i + k] == needle@[k],
        decreases needle.len() - j,
    {
        if hay[i + j] != needle[j] {
            assert(hay@.subrange(i as int, i + needle.len())[j as int] != needle@[j as int]);
            return false;
        }
        j = j + 1;
    }
    assert(hay@.subrange(i as int, i + needle.len()) =~= needle@);
    true
}

/// Whether `needle` occurs somewhere in `hay`.
pub fn chars_contain(hay: &Vec<char>, needle: &Vec<char>) -> (r: bool)
    ensures
        r == seq_contains(hay@, needle@),
{
    if needle.len() > hay.len() {
        return false;
    }
    let last = hay.len() - needle.len();
    let mut i: usize = 0;
    while i <= last
        invariant
            last + needle.len() == hay.len(),
            i <= last + 1,
            forall|k: int| 0 <= k < i ==> !occurs_at(hay@, needle@, k),
        decreases last + 1 - i,
    {
        if matches_at(hay, needle, i) {
            return true;
        }
        if i == last {
            return false;
        }
        i = i + 1;
    }
    false
}

/// Whether `needle` occurs somewhere in `hay` (`str::contains`).
pub fn str_contains(hay: &str, needle: &str) -> (r: bool)
    ensures
        r == seq_contains(hay@, needle@),
{
    let h = to_chars(hay);
    let n = to_chars(needle);
    chars_contain(&h, &n)
}

/// Whether `s` begins with `prefix` (`str::starts_with`).
pub fn str_starts_with(s: &str, prefix: &str) -> (r: bool)
    ensures
        r == starts_with(s@, prefix@),
{
    let v = to_chars(s);
    let p = to_chars(prefix);
    if p.len() > v.len() {
        return false;
    }
    let r = matches_at(&v, &p, 0);
    assert(occurs_at(v@, p@, 0) == starts_with(v@, p@));
    r
}

/// Whether the character `c` occurs in `s`.
pub fn str_has_char(s: &str, c: char) -> (r: bool)
    ensures
        r == s@.contains(c),
{
    let v = to_chars(s);
    let mut i: usize = 0;
    while i < v.len()
        invariant
            i <= v.len(),
            v@ == s@,
            forall|k: int| 0 <= k < i ==> v@[k] != c,
        decreases v.len() - i,
    {
        if v[i] == c {
            return true;
        }
        i = i + 1;
    }
    false
}

proof fn lemma_strip_trailing_skip(s: Seq<char>, c: char, k: int)
    requires
        0 <= k <= s.len(),
        forall|i: int| s.len() - k <= i < s.len() ==> #[trigger] s[i] == c,
    ensures
        strip_trailing(s, c) == strip_trailing(s.subrange(0, s.len() - k), c),
    decreases k,
{
    if k == 0 {
        assert(s.subrange(0, s.len() as int) =~= s);
    } else {
        let d = s.drop_last();
        assert forall|i: int| d.len() - (k - 1) <= i < d.len() implies #[trigger] d[i] == c by {
            assert(d[i] == s[i]);
        }
        lemma_strip_trailing_skip(d, c, k - 1);
        assert(d.subrange(0, d.len() - (k - 1)) =~= s.subrange(0, s.len() - k));
    }
}

/// `s` with every trailing `c` removed (`str::trim_end_matches`).
pub fn strip_trailing_str(s: &str, c: char) -> (r: String)
    ensures
        r@ == strip_trailing(s@, c),
{
    let v = to_chars(s);
    let n = v.len();
    let mut hi = n;
    while hi > 0 && v[hi - 1] == c
        invariant
            hi <= n,
            n == v.len(),
            forall|i: int| hi <= i < n ==> #[trigger] v@[i] == c,
        decreases hi,
    {
        hi = hi - 1;
    }
    proof {
        lemma_strip_trailing_skip(v@, c, (n - hi) as int);
        let u = v@.subrange(0, hi as int);
        if hi > 0 {
            assert(u.last() == v@[hi - 1]);
        }
        assert(strip_trailing(u, c) == u);
    }
    string_from_range(&v, 0, hi)
}


/// The characters that are not whitespace.
pub open spec fn non_white(c: char) -> bool {
    !is_white_space(c)
}

/// `t` satisfies `is_collapsed` except that it may end with one space that
/// follows a non-whitespace character.
spec fn almost_collapsed(t: Seq<char>) -> bool {
    forall|i: int|
        0 <= i < t.len() && #[trigger] is_white_space(t[i]) ==> {
            &&& t[i] == ' '
            &&& 0 < i
            &&& !is_white_space(t[i - 1])
            &&& (i + 1 < t.len() ==> !is_white_space(t[i + 1]))
        }
}

proof fn lemma_collapse_of_almost(t: Seq<char>)
    requires
        almost_collapsed(t),
    ensures
        collapse_whitespace(t) == (if t.len() > 0 && is_white_space(t.last()) {
            t.drop_last()
        } else {
            t
        }),
    decreases t.len(),
{
    if t.len() > 0 {
        let d = t.drop_last();
        assert forall|i: int| 0 <= i < d.len() && #[trigger] is_white_space(d[i]) implies {
            &&& d[i] == ' '
            &&& 0 < i
            &&& !is_white_space(d[i - 1])
            &&& (i + 1 < d.len() ==> !is_white_space(d[i + 1]))
        } by {
            assert(d[i] == t[i]);
            assert(is_white_space(t[i]));
        }
        lemma_collapse_of_almost(d);
        let c = t.last();
        let n = t.len() as int;
        if is_white_space(c) {
            assert(is_white_space(t[n - 1]));
            assert(!is_white_space(d.last()));
        } else if n >= 2 && !is_white_space(t[n - 2]) {
            assert(d.last() == t[n - 2]);
            assert(d.push(c) =~= t);
        } else if n == 1 {
            assert(seq![c] =~= t);
        } else {
            assert(is_white_space(t[n - 2]));
            assert(d.last() == t[n - 2]);
            assert(n - 2 > 0);
            let dd = d.drop_last();
            assert(dd.len() > 0);
            assert(t[n - 2] == ' ');
            assert(dd.push(' ').push(c) =~= t);
        }
    }
}

proof fn lemma_collapse_shape(s: Seq<char>)
    ensures
        is_collapsed(collapse_whitespace(s)),
    decreases s.len(),
{
    if s.len() > 0 {
        let d = s.drop_last();
        lemma_collapse_shape(d);
        let prev = collapse_whitespace(d);
        let c = s.last();
        let r = collapse_whitespace(s);
        if prev.len() > 0 {
            assert(!is_white_space(prev[prev.len() - 1]));
        }
        if is_white_space(c) {
        } else if s.len() >= 2 && !is_white_space(s[s.len() - 2]) {
            assert forall|i: int| 0 <= i < r.len() && #[trigger] is_white_space(r[i]) implies {
                &&& r[i] == ' '
                &&& 0 < i < r.len() - 1
                &&& !is_white_space(r[i - 1])
                &&& !is_white_space(r[i + 1])
            } by {
                assert(r[i] == prev[i]);
                assert(is_white_space(prev[i]));
                assert(r[i - 1] == prev[i - 1]);
                assert(r[i + 1] == prev[i + 1]);
            }
        } else if prev.len() == 0 {
        } else {
            let p = prev.len() as int;
            assert forall|i: int| 0 <= i < r.len() && #[trigger] is_white_space(r[i]) implies {
                &&& r[i] == ' '
                &&& 0 < i < r.len() - 1
                &&& !is_white_space(r[i - 1])
                &&& !is_white_space(r[i + 1])
            } by {
                if i < p {
                    assert(r[i] == prev[i]);
                    assert(is_white_space(prev[i]));
                    assert(r[i - 1] == prev[i - 1]);
                    assert(r[i + 1] == prev[i + 1]);
                } else if i == p {
                    assert(r[i - 1] == prev[p - 1]);
                }
            }
        }
    }
}

/// Collapsing whitespace yields text with no whitespace at either end in which
/// every whitespace character is a single space between two words.
pub proof fn law_collapse_whitespace_shape(s: Seq<char>)
    ensures
        is_collapsed(collapse_whitespace(s)),
        collapse_whitespace(s).len() > 0 ==> !is_white_space(collapse_whitespace(s)[0]),
        collapse_whitespace(s).len() > 0 ==> !is_white_space(collapse_whitespace(s).last()),
{
    lemma_collapse_shape(s);
    let r = collapse_whitespace(s);
    if r.len() > 0 {
        assert(!is_white_space(r[0]));
        assert(!is_white_space(r[r.len() - 1]));
    }
}

/// Collapsing whitespace twice gives the same text as collapsing it once.
pub proof fn law_collapse_whitespace_idempotent(s: Seq<char>)
    ensures
        collapse_whitespace(collapse_whitespace(s)) == collapse_whitespace(s),
{
    law_collapse_whitespace_shape(s);
    let r = collapse_whitespace(s);
    assert(almost_collapsed(r));
    lemma_collapse_of_almost(r);
}

/// The predicate "is not whitespace", as a spec closure.
pub open spec fn non_white_pred() -> spec_fn(char) -> bool {
    |c: char| non_white(c)
}

/// Collapsing whitespace keeps every non-whitespace character, in order.
pub proof fn law_collapse_whitespace_keeps_words(s: Seq<char>)
    ensures
        collapse_whitespace(s).filter(non_white_pred()) == s.filter(non_white_pred()),
    decreases s.len(),
{
    let f = non_white_pred();
    reveal_with_fuel(Seq::<_>::filter, 2);
    if s.len() > 0 {
        let d = s.drop_last();
        law_collapse_whitespace_keeps_words(d);
        let prev = collapse_whitespace(d);
        let c = s.last();
        assert(s.filter(f) == (if f(c) { d.filter(f).push(c) } else { d.filter(f) }));
        if is_white_space(c) {
            assert(!f(c));
        } else if s.len() >= 2 && !is_white_space(s[s.len() - 2]) {
            assert(prev.push(c).drop_last() =~= prev);
            assert(prev.push(c).last() == c);
            assert(prev.push(c).filter(f) == prev.filter(f).push(c));
        } else if prev.len() == 0 {
            assert(prev.filter(f) =~= Seq::<char>::empty());
            assert(seq![c].drop_last() =~= prev);
            assert(seq![c].last() == c);
            assert(seq![c].filter(f) == prev.filter(f).push(c));
        } else {
            let q = prev.push(' ');
            assert(q.push(c).drop_last() =~= q);
            assert(q.push(c).last() == c);
            assert(q.drop_last() =~= prev);
            assert(q.last() == ' ');
            assert(!f(' '));
            assert(q.filter(f) == prev.filter(f));
            assert(q.push(c).filter(f) == q.filter(f).push(c));
        }
    }
}

/// Trimming removes exactly the leading and trailing whitespace: what is left
/// is empty or begins and ends with a non-whitespace character, and trimming it
/// again changes nothing.
pub proof fn law_trim_shape(s: Seq<char>)
    ensures
        trim(s).len() > 0 ==> !is_white_space(trim(s)[0]) && !is_white_space(trim(s).last()),
        trim(trim(s)) == trim(s),
{
    lemma_trim_start_first(s);
    let a = trim_start(s);
    lemma_trim_end_of_trimmed_start(a);
    let t = trim(s);
    lemma_trim_fixed(t);
}

proof fn lemma_trim_start_first(s: Seq<char>)
    ensures
        trim_start(s).len() > 0 ==> !is_white_space(trim_start(s)[0]),
    decreases s.len(),
{
    if s.len() > 0 && is_white_space(s[0]) {
        lemma_trim_start_first(s.drop_first());
    }
}

proof fn lemma_trim_end_of_trimmed_start(a: Seq<char>)
    requires
        a.len() > 0 ==> !is_white_space(a[0]),
    ensures
        trim_end(a).len() > 0 ==> !is_white_space(trim_end(a)[0]) && !is_white_space(
            trim_end(a).last(),
        ),
    decreases a.len(),
{
    if a.len() > 0 && is_white_space(a.last()) {
        let d = a.drop_last();
        if d.len() > 0 {
            assert(d[0] == a[0]);
        }
        lemma_trim_end_of_trimmed_start(d);
    }
}

/// Text without whitespace at either end is left unchanged by trimming.
pub proof fn lemma_trim_fixed(t: Seq<char>)
    requires
        t.len() > 0 ==> !is_white_space(t[0]) && !is_white_space(t.last()),
    ensures
        trim(t) == t,
{
}

/// The pieces of `s` between occurrences of `c` (`str::split` with a char):
/// one more piece than there are occurrences, empty pieces included.
pub open spec fn split_on(s: Seq<char>, c: char) -> Seq<Seq<char>>
    decreases s.len(),
{
    if s.len() == 0 {
        seq![seq![]]
    } else {
        let p = split_on(s.drop_last(), c);
        if s.last() == c {
            p.push(seq![])
        } else {
            p.update(p.len() - 1, p.last().push(s.last()))
        }
    }
}

/// The pieces joined with `sep` between consecutive pieces.
pub open spec fn join(pieces: Seq<Seq<char>>, sep: Seq<char>) -> Seq<char>
    decreases pieces.len(),
{
    if pieces.len() == 0 {
        seq![]
    } else if pieces.len() == 1 {
        pieces[0]
    } else {
        join(pieces.drop_last(), sep) + sep + pieces.last()
    }
}

/// Splitting always yields at least one piece.
pub proof fn lemma_split_on_nonempty(s: Seq<char>, c: char)
    ensures
        split_on(s, c).len() >= 1,
    decreases s.len(),
{
    if s.len() > 0 {
        lemma_split_on_nonempty(s.drop_last(), c);
    }
}

/// Joining the pieces of `s` between the occurrences of `c` with `c` gives back
/// `s`.
pub proof fn law_join_split_on(s: Seq<char>, c: char)
    ensures
        join(split_on(s, c), seq![c]) == s,
    decreases s.len(),
{
    if s.len() > 0 {
        let d = s.drop_last();
        law_join_split_on(d, c);
        lemma_split_on_nonempty(d, c);
        let p = split_on(d, c);
        let x = s.last();
        if x == c {
            assert(p.push(seq![]).drop_last() =~= p);
            assert(join(p.push(seq![]), seq![c]) == d + seq![c] + seq![]);
            assert(d + seq![c] + Seq::<char>::empty() =~= s);
        } else {
            let q = p.update(p.len() - 1, p.last().push(x));
            if p.len() == 1 {
                assert(q[0] == p[0].push(x));
                assert(join(p, seq![c]) == p[0]);
                assert(s =~= d.push(x));
            } else {
                assert(q.drop_last() =~= p.drop_last());
                assert(join(q, seq![c]) == join(p.drop_last(), seq![c]) + seq![c] + p.last().push(
                    x,
                ));
                assert(join(p, seq![c]) == join(p.drop_last(), seq![c]) + seq![c] + p.last());
                assert(s =~= d.push(x));
                assert(join(q, seq![c]) =~= join(p, seq![c]).push(x));
            }
        }
    }
}

/// A prefix of `a` is a prefix of `a` followed by anything.
pub proof fn lemma_starts_with_append(a: Seq<char>, b: Seq<char>, p: Seq<char>)
    requires
        starts_with(a, p),
    ensures
        starts_with(a + b, p),
{
    assert((a + b).subrange(0, p.len() as int) =~= a.subrange(0, p.len() as int));
}

} // verus!
