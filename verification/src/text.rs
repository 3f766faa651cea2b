//! Character-level helpers over `Seq<char>`: the text operations that the
//! lints and fixes apply to source snippets, each with an exact specification.
use vstd::prelude::*;

verus! {

/// The characters with the Unicode `White_Space` property.
pub open spec fn is_ws(c: char) -> bool {
    ||| ('\u{9}' <= c && c <= '\u{d}')
    ||| c == ' '
    ||| c == '\u{85}'
    ||| c == '\u{a0}'
    ||| c == '\u{1680}'
    ||| ('\u{2000}' <= c && c <= '\u{200a}')
    ||| c == '\u{2028}'
    ||| c == '\u{2029}'
    ||| c == '\u{202f}'
    ||| c == '\u{205f}'
    ||| c == '\u{3000}'
}

/// `p` occurs in `s` at position `i`.
pub open spec fn occurs_at(s: Seq<char>, p: Seq<char>, i: int) -> bool {
    0 <= i && i + p.len() <= s.len() && s.subrange(i, i + p.len()) == p
}

/// `p` occurs somewhere in `s`.
pub open spec fn contains(s: Seq<char>, p: Seq<char>) -> bool {
    exists|i: int| occurs_at(s, p, i)
}

/// `s` begins with `p`.
pub open spec fn starts_with(s: Seq<char>, p: Seq<char>) -> bool {
    p.len() <= s.len() && s.subrange(0, p.len() as int) == p
}

/// `s` ends with `p`.
pub open spec fn ends_with(s: Seq<char>, p: Seq<char>) -> bool {
    p.len() <= s.len() && s.subrange(s.len() - p.len(), s.len() as int) == p
}

/// The pieces of `s[start..]` between the non-overlapping occurrences of `p`,
/// found left to right from position `i` on, the current piece starting at `start`.
pub open spec fn split_from(s: Seq<char>, p: Seq<char>, start: int, i: int) -> Seq<Seq<char>>
    decreases s.len() - i,
{
    if p.len() == 0 || i + p.len() > s.len() || i < 0 {
        seq![s.subrange(start, s.len() as int)]
    } else if occurs_at(s, p, i) {
        seq![s.subrange(start, i)] + split_from(s, p, i + p.len(), i + p.len())
    } else {
        split_from(s, p, start, i + 1)
    }
}

/// The pieces of `s` between the non-overlapping occurrences of `p`, left to right
/// (`str::split` with a string pattern).
pub open spec fn split(s: Seq<char>, p: Seq<char>) -> Seq<Seq<char>> {
    split_from(s, p, 0, 0)
}

/// Splitting from position `i` gives at most one piece more than the
/// characters left.
pub proof fn lemma_split_from_len(s: Seq<char>, p: Seq<char>, start: int, i: int)
    requires
        0 <= i <= s.len(),
    ensures
        split_from(s, p, start, i).len() <= s.len() - i + 1,
    decreases s.len() - i,
{
    if p.len() == 0 || i + p.len() > s.len() || i < 0 {
    } else if occurs_at(s, p, i) {
        lemma_split_from_len(s, p, i + p.len(), i + p.len());
    } else {
        lemma_split_from_len(s, p, start, i + 1);
    }
}

/// Splitting gives at most one piece more than `s` has characters.
pub proof fn lemma_split_len(s: Seq<char>, p: Seq<char>)
    ensures
        split(s, p).len() <= s.len() + 1,
{
    lemma_split_from_len(s, p, 0, 0);
}

/// The pieces joined with `sep` between each two (`[T]::join`).
pub open spec fn join(parts: Seq<Seq<char>>, sep: Seq<char>) -> Seq<char>
    decreases parts.len(),
{
    if parts.len() == 0 {
        seq![]
    } else if parts.len() == 1 {
        parts[0]
    } else {
        join(parts.drop_last(), sep) + sep + parts.last()
    }
}

/// Every occurrence of `p` in `s`, left to right and not overlapping, replaced by `r`
/// (`str::replace`).
pub open spec fn replace(s: Seq<char>, p: Seq<char>, r: Seq<char>) -> Seq<char> {
    join(split(s, p), r)
}

/// `s` without its leading whitespace.
pub open spec fn trim_start(s: Seq<char>) -> Seq<char>
    decreases s.len(),
{
    if s.len() > 0 && is_ws(s[0]) {
        trim_start(s.drop_first())
    } else {
        s
    }
}

/// `s` without its trailing whitespace.
pub open spec fn trim_end(s: Seq<char>) -> Seq<char>
    decreases s.len(),
{
    if s.len() > 0 && is_ws(s.last()) {
        trim_end(s.drop_last())
    } else {
        s
    }
}

/// `s` without leading and trailing whitespace (`str::trim`).
pub open spec fn trim(s: Seq<char>) -> Seq<char> {
    trim_end(trim_start(s))
}

/// The whitespace that `s` begins with.
pub open spec fn leading_ws(s: Seq<char>) -> Seq<char> {
    s.subrange(0, s.len() - trim_start(s).len())
}

/// `s` repeated `n` times (`str::repeat`).
pub open spec fn repeat(s: Seq<char>, n: nat) -> Seq<char>
    decreases n,
{
    if n == 0 {
        seq![]
    } else {
        repeat(s, (n - 1) as nat) + s
    }
}

/// The number of bytes of `c` in UTF-8.
pub open spec fn utf8_width(c: char) -> nat {
    if (c as u32) < 0x80 {
        1
    } else if (c as u32) < 0x800 {
        2
    } else if (c as u32) < 0x10000 {
        3
    } else {
        4
    }
}

/// The number of bytes of `s` in UTF-8 (`str::len`).
pub open spec fn utf8_len(s: Seq<char>) -> nat
    decreases s.len(),
{
    if s.len() == 0 {
        0
    } else {
        utf8_len(s.drop_last()) + utf8_width(s.last())
    }
}

/// The number of bytes of `s` in UTF-8, or `usize::MAX` where it has more.
pub open spec fn utf8_len_capped(s: Seq<char>) -> nat {
    if utf8_len(s) <= usize::MAX {
        utf8_len(s)
    } else {
        usize::MAX as nat
    }
}

/// The number of bytes of `s` in UTF-8, or `usize::MAX` where it has more.
pub fn utf8_len_exec(s: &Vec<char>) -> (n: usize)
    ensures
        n == utf8_len_capped(s@),
{
    let mut n: usize = 0;
    let mut i: usize = 0;
    while i < s.len()
        invariant
            i <= s.len(),
            n == utf8_len_capped(s@.take(i as int)),
        decreases s.len() - i,
    {
        let c = s[i];
        let code: u32 = c as u32;
        let w: usize = if code < 0x80 {
            1
        } else if code < 0x800 {
            2
        } else if code < 0x10000 {
            3
        } else {
            4
        };
        assert(s@.take(i + 1).drop_last() =~= s@.take(i as int));
        assert(w == utf8_width(s@[i as int]));
        n = n.saturating_add(w);
        i = i + 1;
    }
    assert(s@.take(s.len() as int) =~= s@);
    n
}

/// Whether `c` is a whitespace character.
pub fn is_whitespace(c: char) -> (r: bool)
    ensures
        r == is_ws(c),
{
    ('\u{9}' <= c && c <= '\u{d}') || c == ' ' || c == '\u{85}' || c == '\u{a0}' || c == '\u{1680}'
        || ('\u{2000}' <= c && c <= '\u{200a}') || c == '\u{2028}' || c == '\u{2029}'
        || c == '\u{202f}' || c == '\u{205f}' || c == '\u{3000}'
}

/// The characters of `s`.
pub fn chars_of(s: &str) -> (r: Vec<char>)
    ensures
        r@ == s@,
{
    let mut r: Vec<char> = Vec::new();
    for c in it: s.chars()
        invariant
            r@ == it.seq().take(it.index() as int),
            it.seq() == s@,
    {
        r.push(c);
    }
    assert(r@ == s@);
    r
}

/// `String::push`: appends one character.
#[verifier::external_body]
pub(crate) fn push_char(s: &mut String, c: char)
    ensures
        final(s)@ == old(s)@.push(c),
{
    s.push(c);
}

/// The string made of the characters of `v`.
pub fn string_of(v: &Vec<char>) -> (r: String)
    ensures
        r@ == v@,
{
    let mut r = String::new();
    let mut i: usize = 0;
    while i < v.len()
        invariant
            i <= v.len(),
            r@ == v@.take(i as int),
        decreases v.len() - i,
    {
        push_char(&mut r, v[i]);
        i = i + 1;
        assert(r@ == v@.take(i as int));
    }
    assert(v@.take(v.len() as int) == v@);
    r
}

/// Whether two character sequences are equal.
pub fn seq_eq(a: &Vec<char>, b: &Vec<char>) -> (r: bool)
    ensures
        r == (a@ == b@),
{
    if a.len() != b.len() {
        return false;
    }
    let mut i: usize = 0;
    while i < a.len()
        invariant
            a.len() == b.len(),
            i <= a.len(),
            forall|k: int| 0 <= k < i ==> a@[k] == b@[k],
        decreases a.len() - i,
    {
        if a[i] != b[i] {
            return false;
        }
        i = i + 1;
    }
    assert(a@ =~= b@);
    true
}

/// Whether two strings hold the same characters.
pub fn str_eq(a: &str, b: &str) -> (r: bool)
    ensures
        r == (a@ == b@),
{
    let x = chars_of(a);
    let y = chars_of(b);
    seq_eq(&x, &y)
}

/// Whether `p` occurs in `s` at position `i`.
pub fn occurs_at_exec(s: &Vec<char>, p: &Vec<char>, i: usize) -> (r: bool)
    ensures
        r == occurs_at(s@, p@, i as int),
{
    if i > s.len() || p.len() > s.len() - i {
        return false;
    }
    let mut k: usize = 0;
    while k < p.len()
        invariant
            i + p.len() <= s.len(),
            k <= p.len(),
            forall|j: int| 0 <= j < k ==> s@[i + j] == p@[j],
        decreases p.len() - k,
    {
        if s[i + k] != p[k] {
            assert(s@.subrange(i as int, i + p.len())[k as int] != p@[k as int]);
            return false;
        }
        k = k + 1;
    }
    assert(s@.subrange(i as int, i + p.len()) =~= p@);
    true
}

/// Whether `p` occurs in `s` (`str::contains`).
pub fn contains_exec(s: &Vec<char>, p: &Vec<char>) -> (r: bool)
    ensures
        r == contains(s@, p@),
{
    if p.len() == 0 {
        assert(s@.subrange(0, 0) =~= p@);
        assert(occurs_at(s@, p@, 0));
        return true;
    }
    let mut i: usize = 0;
    while p.len() <= s.len() - i
        invariant
            p.len() >= 1,
            i <= s.len(),
            forall|j: int| 0 <= j < i ==> !occurs_at(s@, p@, j),
        decreases s.len() - i,
    {
        if occurs_at_exec(s, p, i) {
            return true;
        }
        i = i + 1;
    }
    proof {
        true_or_not_contains(s@, p@, i as int);
    }
    false
}

/// Whether `p` occurs in `s`, on strings.
pub fn str_contains(s: &str, p: &str) -> (r: bool)
    ensures
        r == contains(s@, p@),
{
    contains_exec(&chars_of(s), &chars_of(p))
}

proof fn true_or_not_contains(s: Seq<char>, p: Seq<char>, i: int)
    requires
        i > s.len() - p.len(),
        forall|j: int| 0 <= j < i ==> !occurs_at(s, p, j),
    ensures
        !contains(s, p),
{
}

/// Whether `s` begins with `p` (`str::starts_with`).
pub fn starts_with_exec(s: &Vec<char>, p: &Vec<char>) -> (r: bool)
    ensures
        r == starts_with(s@, p@),
{
    occurs_at_exec(s, p, 0)
}

/// Whether `s` ends with `p` (`str::ends_with`).
pub fn ends_with_exec(s: &Vec<char>, p: &Vec<char>) -> (r: bool)
    ensures
        r == ends_with(s@, p@),
{
    if p.len() > s.len() {
        return false;
    }
    occurs_at_exec(s, p, s.len() - p.len())
}

/// The whitespace that `s` begins with (`chars().take_while(char::is_whitespace)`).
pub fn leading_ws_exec(s: &Vec<char>) -> (r: Vec<char>)
    ensures
        r@ == leading_ws(s@),
{
    let a = leading_ws_len(s);
    slice_of(s, 0, a)
}

/// The characters of `s` from `a` to `b`.
pub fn slice_of(s: &Vec<char>, a: usize, b: usize) -> (r: Vec<char>)
    requires
        a <= b <= s.len(),
    ensures
        r@ == s@.subrange(a as int, b as int),
{
    let mut r: Vec<char> = Vec::new();
    let mut i = a;
    while i < b
        invariant
            a <= i <= b <= s.len(),
            r@ == s@.subrange(a as int, i as int),
        decreases b - i,
    {
        r.push(s[i]);
        i = i + 1;
        assert(r@ =~= s@.subrange(a as int, i as int));
    }
    r
}

/// Appends the characters of `t` to `r`.
pub fn append(r: &mut Vec<char>, t: &Vec<char>)
    ensures
        final(r)@ == old(r)@ + t@,
{
    let mut i: usize = 0;
    while i < t.len()
        invariant
            i <= t.len(),
            r@ == old(r)@ + t@.take(i as int),
        decreases t.len() - i,
    {
        r.push(t[i]);
        i = i + 1;
        assert(r@ =~= old(r)@ + t@.take(i as int));
    }
    assert(t@.take(t.len() as int) =~= t@);
}

/// The character sequences held by a sequence of vectors.
pub open spec fn views(v: Seq<Vec<char>>) -> Seq<Seq<char>> {
    v.map_values(|x: Vec<char>| x@)
}

/// The pieces of `s` between the occurrences of `p` (`str::split`).
pub fn split_exec(s: &Vec<char>, p: &Vec<char>) -> (r: Vec<Vec<char>>)
    requires
        p.len() > 0,
    ensures
        views(r@) == split(s@, p@),
{
    let mut out: Vec<Vec<char>> = Vec::new();
    let mut start: usize = 0;
    let mut i: usize = 0;
    while p.len() <= s.len() - i
        invariant
            p.len() > 0,
            start <= i <= s.len(),
            views(out@) + split_from(s@, p@, start as int, i as int) == split(s@, p@),
        decreases s.len() - i,
    {
        if occurs_at_exec(s, p, i) {
            let piece = slice_of(s, start, i);
            let ghost before = views(out@);
            out.push(piece);
            assert(views(out@) =~= before.push(piece@));
            start = i + p.len();
            i = start;
        } else {
            i = i + 1;
        }
    }
    let piece = slice_of(s, start, s.len());
    let ghost before = views(out@);
    out.push(piece);
    assert(views(out@) =~= before.push(piece@));
    assert(split_from(s@, p@, start as int, i as int) == seq![piece@]);
    out
}

/// The pieces joined with `sep` (`[T]::join`).
pub fn join_exec(parts: &Vec<Vec<char>>, sep: &Vec<char>) -> (r: Vec<char>)
    ensures
        r@ == join(views(parts@), sep@),
{
    let mut res: Vec<char> = Vec::new();
    if parts.len() == 0 {
        return res;
    }
    append(&mut res, &parts[0]);
    let mut i: usize = 1;
    while i < parts.len()
        invariant
            1 <= i <= parts.len(),
            res@ == join(views(parts@).take(i as int), sep@),
        decreases parts.len() - i,
    {
        append(&mut res, sep);
        append(&mut res, &parts[i]);
        assert(views(parts@).take(i + 1).drop_last() =~= views(parts@).take(i as int));
        i = i + 1;
    }
    assert(views(parts@).take(parts.len() as int) =~= views(parts@));
    res
}

/// `s` with every occurrence of `p` replaced by `r` (`str::replace`).
pub fn replace_exec(s: &Vec<char>, p: &Vec<char>, r: &Vec<char>) -> (out: Vec<char>)
    requires
        p.len() > 0,
    ensures
        out@ == replace(s@, p@, r@),
{
    let parts = split_exec(s, p);
    join_exec(&parts, r)
}

proof fn lemma_trim_start_skip(s: Seq<char>, a: int)
    requires
        0 <= a <= s.len(),
        forall|k: int| 0 <= k < a ==> is_ws(s[k]),
    ensures
        trim_start(s) == trim_start(s.skip(a)),
    decreases a,
{
    if a > 0 {
        assert(s.drop_first().skip(a - 1) =~= s.skip(a));
        lemma_trim_start_skip(s.drop_first(), a - 1);
    } else {
        assert(s.skip(0) =~= s);
    }
}

proof fn lemma_trim_end_take(s: Seq<char>, b: int)
    requires
        0 <= b <= s.len(),
        forall|k: int| b <= k < s.len() ==> is_ws(s[k]),
    ensures
        trim_end(s) == trim_end(s.take(b)),
    decreases s.len() - b,
{
    if b < s.len() {
        assert(s.drop_last().take(b) =~= s.take(b));
        lemma_trim_end_take(s.drop_last(), b);
    } else {
        assert(s.take(b) =~= s);
    }
}

/// The number of leading whitespace characters of `s`.
pub fn leading_ws_len(s: &Vec<char>) -> (a: usize)
    ensures
        a <= s.len(),
        trim_start(s@) == s@.skip(a as int),
        s@.subrange(0, a as int) == leading_ws(s@),
{
    let mut a: usize = 0;
    while a < s.len() && is_whitespace(s[a])
        invariant
            a <= s.len(),
            forall|k: int| 0 <= k < a ==> is_ws(s@[k]),
        decreases s.len() - a,
    {
        a = a + 1;
    }
    proof {
        lemma_trim_start_skip(s@, a as int);
    }
    a
}

/// `s` without leading and trailing whitespace (`str::trim`).
pub fn trim_exec(s: &Vec<char>) -> (r: Vec<char>)
    ensures
        r@ == trim(s@),
{
    let a = leading_ws_len(s);
    let mut b: usize = s.len();
    while b > a && is_whitespace(s[b - 1])
        invariant
            a <= b <= s.len(),
            forall|k: int| b <= k < s.len() ==> is_ws(s@[k]),
        decreases b,
    {
        b = b - 1;
    }
    proof {
        let t = s@.skip(a as int);
        assert forall|k: int| b - a <= k < t.len() implies is_ws(t[k]) by {
            assert(t[k] == s@[k + a]);
        }
        lemma_trim_end_take(t, b - a);
        assert(t.take(b - a) =~= s@.subrange(a as int, b as int));
        if b > a {
            assert(!is_ws(t.take(b - a).last()));
        } else {
            assert(t.take(b - a).len() == 0);
        }
    }
    slice_of(s, a, b)
}

/// `s` repeated `n` times (`str::repeat`).
pub fn repeat_exec(s: &Vec<char>, n: usize) -> (r: Vec<char>)
    ensures
        r@ == repeat(s@, n as nat),
{
    let mut r: Vec<char> = Vec::new();
    let mut i: usize = 0;
    while i < n
        invariant
            i <= n,
            r@ == repeat(s@, i as nat),
        decreases n - i,
    {
        append(&mut r, s);
        i = i + 1;
    }
    r
}

/// The characters of `p` at position `i` of `s`, one by one.
pub proof fn lemma_occurs_at_chars(s: Seq<char>, p: Seq<char>, i: int)
    requires
        occurs_at(s, p, i),
    ensures
        forall|k: int| 0 <= k < p.len() ==> s[i + k] == #[trigger] p[k],
{
    assert forall|k: int| 0 <= k < p.len() implies s[i + k] == #[trigger] p[k] by {
        assert(s.subrange(i, i + p.len())[k] == s[i + k]);
    }
}

/// With no occurrence of `p` from position `i` on, splitting from `i` gives
/// the rest of `s` as one piece.
pub proof fn lemma_split_from_none(s: Seq<char>, p: Seq<char>, start: int, i: int)
    requires
        p.len() > 0,
        0 <= i,
        forall|j: int| i <= j ==> !#[trigger] occurs_at(s, p, j),
    ensures
        split_from(s, p, start, i) == seq![s.subrange(start, s.len() as int)],
    decreases s.len() - i,
{
    if i + p.len() <= s.len() {
        lemma_split_from_none(s, p, start, i + 1);
    }
}

/// Positions without an occurrence of `p` are passed over by the split.
pub proof fn lemma_split_from_skip(s: Seq<char>, p: Seq<char>, start: int, i: int, k: int)
    requires
        p.len() > 0,
        0 <= i <= k,
        k + p.len() <= s.len(),
        forall|j: int| i <= j < k ==> !#[trigger] occurs_at(s, p, j),
    ensures
        split_from(s, p, start, i) == split_from(s, p, start, k),
    decreases k - i,
{
    if i < k {
        assert(!occurs_at(s, p, i));
        lemma_split_from_skip(s, p, start, i + 1, k);
    }
}

/// In `l + p + r`, where `p` occurs nowhere else, replacing `p` by `t` gives
/// `l + t + r`.
pub proof fn lemma_replace_single(l: Seq<char>, p: Seq<char>, r: Seq<char>, t: Seq<char>)
    requires
        p.len() > 0,
        forall|j: int| j != l.len() ==> !#[trigger] occurs_at(l + p + r, p, j),
    ensures
        replace(l + p + r, p, t) == l + t + r,
{
    let s = l + p + r;
    let n = l.len() as int;
    assert(s.subrange(n, n + p.len()) =~= p);
    assert(occurs_at(s, p, n));
    lemma_split_from_skip(s, p, 0, 0, n);
    lemma_split_from_none(s, p, n + p.len(), n + p.len());
    assert(s.subrange(0, n) =~= l);
    assert(s.subrange(n + p.len(), s.len() as int) =~= r);
    let parts = seq![l, r];
    assert(split(s, p) =~= parts);
    assert(parts.drop_last() =~= seq![l]);
    assert(join(seq![l], t) == l);
    assert(join(parts, t) == join(parts.drop_last(), t) + t + parts.last());
    assert(join(parts, t) =~= l + t + r);
}

/// Splitting from positions shifted by `k` splits what follows `k`.
pub proof fn lemma_split_from_shift(s: Seq<char>, p: Seq<char>, k: int, a: int, b: int)
    requires
        0 <= k,
        0 <= a <= b,
        k + b <= s.len(),
    ensures
        split_from(s, p, k + a, k + b) == split_from(s.skip(k), p, a, b),
    decreases s.len() - (k + b),
{
    let t = s.skip(k);
    if p.len() == 0 || k + b + p.len() > s.len() {
        assert(s.subrange(k + a, s.len() as int) =~= t.subrange(a, t.len() as int));
    } else {
        assert(s.subrange(k + b, k + b + p.len()) =~= t.subrange(b, b + p.len()));
        if occurs_at(s, p, k + b) {
            assert(s.subrange(k + a, k + b) =~= t.subrange(a, b));
            lemma_split_from_shift(s, p, k, b + p.len(), b + p.len());
        } else {
            lemma_split_from_shift(s, p, k, a, b + 1);
        }
    }
}

/// Where the first occurrence of `p` is at `n`, the split is what comes before
/// it, then the split of what comes after it.
pub proof fn lemma_split_first(s: Seq<char>, p: Seq<char>, n: int)
    requires
        p.len() > 0,
        0 <= n,
        occurs_at(s, p, n),
        forall|j: int| 0 <= j < n ==> !#[trigger] occurs_at(s, p, j),
    ensures
        split(s, p) == seq![s.take(n)] + split(s.skip(n + p.len()), p),
{
    lemma_split_from_skip(s, p, 0, 0, n);
    lemma_split_from_shift(s, p, n + p.len(), 0, 0);
    assert(s.subrange(0, n) =~= s.take(n));
}

/// Joining two or more pieces puts the first, the separator, then the join of
/// the rest.
pub proof fn lemma_join_first(ps: Seq<Seq<char>>, sep: Seq<char>)
    requires
        ps.len() >= 2,
    ensures
        join(ps, sep) == ps[0] + sep + join(ps.drop_first(), sep),
    decreases ps.len(),
{
    if ps.len() == 2 {
        assert(ps.drop_last() =~= seq![ps[0]]);
        assert(ps.drop_first() =~= seq![ps[1]]);
        assert(join(seq![ps[0]], sep) == ps[0]);
        assert(join(seq![ps[1]], sep) == ps[1]);
    } else {
        let init = ps.drop_last();
        lemma_join_first(init, sep);
        assert(init.drop_first() =~= ps.drop_first().drop_last());
        assert(ps.drop_first().last() == ps.last());
        assert(join(ps.drop_first(), sep) == join(ps.drop_first().drop_last(), sep) + sep
            + ps.drop_first().last());
        assert(init[0] == ps[0]);
    }
}

/// ` ` then `p` then ` `: the separator of a list joined around `p`.
pub open spec fn spaced(p: Seq<char>) -> Seq<char> {
    seq![' '] + p + seq![' ']
}

/// The pieces that splitting `q` followed by `ps` joined around `p` gives: each
/// item with the spaces around it, the first after `q`.
pub open spec fn padded_pieces(q: Seq<char>, ps: Seq<Seq<char>>) -> Seq<Seq<char>>
    decreases ps.len(),
{
    if ps.len() <= 1 {
        if ps.len() == 0 {
            Seq::empty()
        } else {
            seq![q + ps[0]]
        }
    } else {
        seq![q + ps[0] + seq![' ']] + padded_pieces(seq![' '], ps.drop_first())
    }
}

/// Splitting a list joined with ` cc ` at `cc`, where no item holds `cc` and
/// `q` holds no `c`, gives back the items with their spaces.
pub proof fn lemma_split_join(q: Seq<char>, ps: Seq<Seq<char>>, c: char)
    requires
        c != ' ',
        ps.len() >= 1,
        forall|i: int| 0 <= i < q.len() ==> q[i] != c,
        forall|i: int| 0 <= i < ps.len() ==> !contains(#[trigger] ps[i], seq![c, c]),
    ensures
        split(q + join(ps, spaced(seq![c, c])), seq![c, c]) == padded_pieces(q, ps),
    decreases ps.len(),
{
    let p = seq![c, c];
    let sep = spaced(p);
    let x = ps[0];
    assert(!contains(x, p));
    if ps.len() == 1 {
        let s = q + x;
        assert(join(ps, sep) == x);
        assert forall|j: int| 0 <= j implies !#[trigger] occurs_at(s, p, j) by {
            if occurs_at(s, p, j) {
                lemma_occurs_at_chars(s, p, j);
                assert(s[j + 0] == c);
                assert(s[j + 1] == c);
                if j < q.len() {
                    assert(s[j] == q[j]);
                } else {
                    assert(x.subrange(j - q.len(), j - q.len() + 2) =~= p) by {
                        assert(x[j - q.len()] == s[j]);
                        assert(x[j - q.len() + 1] == s[j + 1]);
                    }
                    assert(occurs_at(x, p, j - q.len()));
                }
            }
        }
        lemma_split_from_none(s, p, 0, 0);
        assert(s.subrange(0, s.len() as int) =~= s);
    } else {
        let rest = ps.drop_first();
        lemma_join_first(ps, sep);
        let s = q + join(ps, sep);
        let n: int = (q.len() + x.len() + 1) as int;
        assert(s =~= q + x + sep + join(rest, sep));
        assert(s.subrange(n, n + 2) =~= p);
        assert forall|j: int| 0 <= j < n implies !#[trigger] occurs_at(s, p, j) by {
            if occurs_at(s, p, j) {
                lemma_occurs_at_chars(s, p, j);
                assert(s[j + 0] == c);
                assert(s[j + 1] == c);
                if j < q.len() {
                    assert(s[j] == q[j]);
                } else if j + 1 < q.len() + x.len() {
                    assert(x.subrange(j - q.len(), j - q.len() + 2) =~= p) by {
                        assert(x[j - q.len()] == s[j]);
                        assert(x[j - q.len() + 1] == s[j + 1]);
                    }
                    assert(occurs_at(x, p, j - q.len()));
                } else {
                    assert(s[(q.len() + x.len()) as int] == ' ');
                }
            }
        }
        lemma_split_first(s, p, n);
        assert(s.take(n) =~= q + x + seq![' ']);
        assert(s.skip(n + 2) =~= seq![' '] + join(rest, sep));
        assert forall|i: int| 0 <= i < rest.len() implies !contains(#[trigger] rest[i], p) by {
            assert(rest[i] == ps[i + 1]);
        }
        lemma_split_join(seq![' '], rest, c);
    }
}

/// No item of the list, and no separator, holds `dd`: neither does the join.
pub proof fn lemma_join_free(ps: Seq<Seq<char>>, sep: Seq<char>, d: char)
    requires
        sep.len() > 0,
        forall|i: int| 0 <= i < sep.len() ==> sep[i] != d,
        forall|i: int| 0 <= i < ps.len() ==> !contains(#[trigger] ps[i], seq![d, d]),
    ensures
        !contains(join(ps, sep), seq![d, d]),
    decreases ps.len(),
{
    let p = seq![d, d];
    if ps.len() == 1 {
        assert(!contains(ps[0], p));
    } else if ps.len() >= 2 {
        let init = ps.drop_last();
        let last = ps.last();
        assert forall|i: int| 0 <= i < init.len() implies !contains(#[trigger] init[i], p) by {
            assert(init[i] == ps[i]);
        }
        lemma_join_free(init, sep, d);
        let a = join(init, sep);
        let s = join(ps, sep);
        assert(s == a + sep + last);
        assert(!contains(last, p));
        if contains(s, p) {
            let j = choose|j: int| occurs_at(s, p, j);
            lemma_occurs_at_chars(s, p, j);
            assert(s[j + 0] == d);
            assert(s[j + 1] == d);
            if j + 1 < a.len() {
                assert(a.subrange(j, j + 2) =~= p) by {
                    assert(a[j] == s[j]);
                    assert(a[j + 1] == s[j + 1]);
                }
                assert(occurs_at(a, p, j));
            } else if j + 1 < a.len() + sep.len() {
                assert(s[j + 1] == sep[j + 1 - a.len()]);
            } else if j < a.len() + sep.len() {
                assert(s[j] == sep[j - a.len()]);
            } else {
                let k = j - a.len() - sep.len();
                assert(last.subrange(k, k + 2) =~= p) by {
                    assert(last[k] == s[j]);
                    assert(last[k + 1] == s[j + 1]);
                }
                assert(occurs_at(last, p, k));
            }
        }
    }
}

/// Leading whitespace goes.
pub proof fn lemma_trim_start_ws(w: Seq<char>, y: Seq<char>)
    requires
        forall|i: int| 0 <= i < w.len() ==> is_ws(#[trigger] w[i]),
    ensures
        trim_start(w + y) == trim_start(y),
    decreases w.len(),
{
    if w.len() > 0 {
        assert((w + y)[0] == w[0]);
        assert((w + y).drop_first() =~= w.drop_first() + y);
        lemma_trim_start_ws(w.drop_first(), y);
    } else {
        assert(w + y =~= y);
    }
}

/// Trailing whitespace goes.
pub proof fn lemma_trim_end_ws(y: Seq<char>, w: Seq<char>)
    requires
        forall|i: int| 0 <= i < w.len() ==> is_ws(#[trigger] w[i]),
    ensures
        trim_end(y + w) == trim_end(y),
    decreases w.len(),
{
    if w.len() > 0 {
        assert((y + w).last() == w.last());
        assert((y + w).drop_last() =~= y + w.drop_last());
        lemma_trim_end_ws(y, w.drop_last());
    } else {
        assert(y + w =~= y);
    }
}

proof fn lemma_trim_after_start(x: Seq<char>, w: Seq<char>)
    requires
        forall|i: int| 0 <= i < w.len() ==> is_ws(#[trigger] w[i]),
    ensures
        trim_end(trim_start(x + w)) == trim_end(trim_start(x)),
    decreases x.len(),
{
    if x.len() == 0 {
        assert(x + w =~= w);
        lemma_trim_start_ws(w, Seq::empty());
        assert(w + Seq::<char>::empty() =~= w);
    } else if is_ws(x[0]) {
        assert((x + w)[0] == x[0]);
        assert((x + w).drop_first() =~= x.drop_first() + w);
        lemma_trim_after_start(x.drop_first(), w);
    } else {
        assert((x + w)[0] == x[0]);
        lemma_trim_end_ws(x, w);
    }
}

/// Whitespace around a text changes nothing of its trimmed form.
pub proof fn lemma_trim_padded(w1: Seq<char>, x: Seq<char>, w2: Seq<char>)
    requires
        forall|i: int| 0 <= i < w1.len() ==> is_ws(#[trigger] w1[i]),
        forall|i: int| 0 <= i < w2.len() ==> is_ws(#[trigger] w2[i]),
    ensures
        trim(w1 + x + w2) == trim(x),
{
    assert(w1 + x + w2 =~= w1 + (x + w2));
    lemma_trim_start_ws(w1, x + w2);
    lemma_trim_after_start(x, w2);
}

/// Trimming the padded pieces of a list of trimmed items gives the items.
pub proof fn lemma_padded_pieces_trim(q: Seq<char>, ps: Seq<Seq<char>>)
    requires
        forall|i: int| 0 <= i < q.len() ==> is_ws(#[trigger] q[i]),
        forall|i: int| 0 <= i < ps.len() ==> trim(#[trigger] ps[i]) == ps[i],
    ensures
        padded_pieces(q, ps).len() == ps.len(),
        forall|i: int|
            0 <= i < ps.len() ==> trim(#[trigger] padded_pieces(q, ps)[i]) == ps[i],
    decreases ps.len(),
{
    if ps.len() == 1 {
        lemma_trim_padded(q, ps[0], Seq::empty());
        assert(q + ps[0] + Seq::<char>::empty() =~= q + ps[0]);
        assert(trim(ps[0]) == ps[0]);
    } else if ps.len() >= 2 {
        let rest = ps.drop_first();
        assert forall|i: int| 0 <= i < rest.len() implies trim(#[trigger] rest[i]) == rest[i] by {
            assert(rest[i] == ps[i + 1]);
        }
        assert(is_ws(' '));
        lemma_padded_pieces_trim(seq![' '], rest);
        lemma_trim_padded(q, ps[0], seq![' ']);
        assert(trim(ps[0]) == ps[0]);
        let pp = padded_pieces(q, ps);
        assert forall|i: int| 0 <= i < ps.len() implies trim(#[trigger] pp[i]) == ps[i] by {
            if i > 0 {
                assert(pp[i] == padded_pieces(seq![' '], rest)[i - 1]);
                assert(rest[i - 1] == ps[i]);
            }
        }
    }
}

/// `s` does not hold the character `d`.
pub open spec fn free_of(s: Seq<char>, d: char) -> bool {
    forall|i: int| 0 <= i < s.len() ==> s[i] != d
}

proof fn lemma_trim_start_shape(s: Seq<char>) -> (a: int)
    ensures
        0 <= a <= s.len(),
        trim_start(s) == s.skip(a),
        trim_start(s).len() > 0 ==> !is_ws(trim_start(s)[0]),
    decreases s.len(),
{
    if s.len() > 0 && is_ws(s[0]) {
        let a = lemma_trim_start_shape(s.drop_first());
        assert(s.drop_first().skip(a) =~= s.skip(a + 1));
        a + 1
    } else {
        assert(s.skip(0) =~= s);
        0
    }
}

proof fn lemma_trim_end_shape(s: Seq<char>) -> (b: int)
    ensures
        0 <= b <= s.len(),
        trim_end(s) == s.take(b),
        trim_end(s).len() > 0 ==> !is_ws(trim_end(s).last()),
    decreases s.len(),
{
    if s.len() > 0 && is_ws(s.last()) {
        let b = lemma_trim_end_shape(s.drop_last());
        assert(s.drop_last().take(b) =~= s.take(b));
        b
    } else {
        assert(s.take(s.len() as int) =~= s);
        s.len() as int
    }
}

/// What trimming leaves is a stretch of `s` that neither begins nor ends with
/// whitespace.
pub proof fn lemma_trim_shape(s: Seq<char>) -> (ab: (int, int))
    ensures
        0 <= ab.0 <= ab.1 <= s.len(),
        trim(s) == s.subrange(ab.0, ab.1),
        trim(s).len() > 0 ==> !is_ws(trim(s)[0]) && !is_ws(trim(s).last()),
{
    let a = lemma_trim_start_shape(s);
    let y = trim_start(s);
    let b = lemma_trim_end_shape(y);
    assert(y.take(b) =~= s.subrange(a, a + b));
    if trim(s).len() > 0 {
        assert(trim(s)[0] == y[0]);
    }
    (a, a + b)
}

/// Trimming twice trims once.
pub proof fn lemma_trim_twice(s: Seq<char>)
    ensures
        trim(trim(s)) == trim(s),
{
    lemma_trim_shape(s);
    let z = trim(s);
    assert(trim_start(z) == z);
    assert(trim_end(z) == z);
}

/// Trimming keeps a text free of a character.
pub proof fn lemma_trim_free(s: Seq<char>, d: char)
    requires
        free_of(s, d),
    ensures
        free_of(trim(s), d),
{
    let ab = lemma_trim_shape(s);
    assert forall|i: int| 0 <= i < trim(s).len() implies trim(s)[i] != d by {
        assert(trim(s)[i] == s[ab.0 + i]);
    }
}

/// Four spaces repeated are spaces.
pub proof fn lemma_repeat_spaces(n: nat)
    ensures
        forall|k: int| 0 <= k < repeat("    "@, n).len() ==> #[trigger] repeat("    "@, n)[k] == ' ',
    decreases n,
{
    reveal_strlit("    ");
    if n > 0 {
        lemma_repeat_spaces((n - 1) as nat);
        let r = repeat("    "@, (n - 1) as nat);
        assert forall|k: int| 0 <= k < repeat("    "@, n).len() implies #[trigger] repeat(
            "    "@,
            n,
        )[k] == ' ' by {
            if k < r.len() {
                assert(repeat("    "@, n)[k] == r[k]);
            }
        }
    }
}

/// Splitting at a character from position `i`, where nothing from `start` to
/// `i` is that character, gives at least one piece, none holding it.
proof fn lemma_split_from_free(s: Seq<char>, c: char, start: int, i: int)
    requires
        0 <= start <= i <= s.len(),
        forall|k: int| start <= k < i ==> s[k] != c,
    ensures
        split_from(s, seq![c], start, i).len() >= 1,
        forall|j: int|
            0 <= j < split_from(s, seq![c], start, i).len() ==> free_of(
                #[trigger] split_from(s, seq![c], start, i)[j],
                c,
            ),
    decreases s.len() - i,
{
    let p = seq![c];
    let r = split_from(s, p, start, i);
    if i + 1 > s.len() {
        assert(r == seq![s.subrange(start, s.len() as int)]);
        assert(free_of(s.subrange(start, s.len() as int), c));
    } else if occurs_at(s, p, i) {
        lemma_split_from_free(s, c, i + 1, i + 1);
        let rest = split_from(s, p, i + 1, i + 1);
        assert(r == seq![s.subrange(start, i)] + rest);
        assert(free_of(s.subrange(start, i), c));
        assert forall|j: int| 0 <= j < r.len() implies free_of(#[trigger] r[j], c) by {
            if j > 0 {
                assert(r[j] == rest[j - 1]);
            }
        }
    } else {
        assert(s.subrange(i, i + 1)[0] == s[i]);
        assert(s[i] != c) by {
            if s[i] == c {
                assert(s.subrange(i, i + 1) =~= p);
            }
        }
        lemma_split_from_free(s, c, start, i + 1);
    }
}

/// The pieces of a split at a character: at least one, none holding it.
pub proof fn lemma_split_free(s: Seq<char>, c: char)
    ensures
        split(s, seq![c]).len() >= 1,
        forall|j: int| 0 <= j < split(s, seq![c]).len() ==> free_of(#[trigger] split(s, seq![c])[j], c),
{
    lemma_split_from_free(s, c, 0, 0);
}

/// A text that does not hold `c` splits at `c` into itself.
pub proof fn lemma_split_none(s: Seq<char>, c: char)
    requires
        free_of(s, c),
    ensures
        split(s, seq![c]) == seq![s],
{
    assert forall|j: int| 0 <= j implies !#[trigger] occurs_at(s, seq![c], j) by {
        let p = seq![c];
        if occurs_at(s, p, j) {
            lemma_occurs_at_chars(s, p, j);
            assert(p[0] == c);
            assert(s[j + 0] == p[0]);
            assert(s[j] != c);
        }
    }
    lemma_split_from_none(s, seq![c], 0, 0);
    assert(s.subrange(0, s.len() as int) =~= s);
}

/// What a part of `s` holds, `s` holds.
pub proof fn lemma_contains_within(s: Seq<char>, p: Seq<char>, q: Seq<char>)
    requires
        contains(s, p),
        contains(p, q),
    ensures
        contains(s, q),
{
    let i = choose|i: int| occurs_at(s, p, i);
    let j = choose|j: int| occurs_at(p, q, j);
    assert(s.subrange(i + j, i + j + q.len()) =~= p.subrange(j, j + q.len())) by {
        assert forall|k: int| 0 <= k < q.len() implies #[trigger] s.subrange(i + j, i + j + q.len())[k]
            == p.subrange(j, j + q.len())[k] by {
            assert(s.subrange(i, i + p.len())[j + k] == s[i + j + k]);
        }
    }
    assert(occurs_at(s, q, i + j));
}

} // verus!
