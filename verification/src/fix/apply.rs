//! Applying fixes to a file: the fixes in reverse order of their start, the
//! ones that keep clear of the next, and the text with them applied.
use vstd::prelude::*;
use vstd::utf8::{encode_utf8, is_char_boundary};

verus! {

/// A span of a file, in bytes.
#[derive(Clone, Copy, Debug, PartialEq, Eq, Structural)]
pub struct TextSpan {
    pub start: usize,
    pub end: usize,
}

/// A fix for a diagnostic: the span of code to replace and its replacement.
#[derive(Debug)]
pub struct Fix {
    pub span: TextSpan,
    pub suggestion: String,
}

/// The value of a fix.
pub struct FixView {
    pub span: TextSpan,
    pub suggestion: Seq<char>,
}

impl View for Fix {
    type V = FixView;

    open spec fn view(&self) -> FixView {
        FixView { span: self.span, suggestion: self.suggestion@ }
    }
}

/// The values of a sequence of fixes.
pub open spec fn fix_views(s: Seq<Fix>) -> Seq<FixView> {
    s.map_values(|f: Fix| f@)
}

/// `f` inserted into `sorted` after every fix that starts at or after it.
pub open spec fn insert_desc(sorted: Seq<FixView>, f: FixView) -> Seq<FixView>
    decreases sorted.len(),
{
    if sorted.len() == 0 {
        seq![f]
    } else if sorted[0].span.start >= f.span.start {
        seq![sorted[0]] + insert_desc(sorted.drop_first(), f)
    } else {
        seq![f] + sorted
    }
}

/// The fixes sorted by decreasing start, fixes with the same start kept in
/// their order (a stable sort).
pub open spec fn sorted_desc(s: Seq<FixView>) -> Seq<FixView>
    decreases s.len(),
{
    if s.len() == 0 {
        Seq::empty()
    } else {
        insert_desc(sorted_desc(s.drop_last()), s.last())
    }
}

/// The fixes are in decreasing order of their start.
pub open spec fn is_sorted_desc(s: Seq<FixView>) -> bool {
    forall|i: int, j: int| 0 <= i < j < s.len() ==> s[i].span.start >= s[j].span.start
}

proof fn lemma_insert_desc(sorted: Seq<FixView>, f: FixView)
    requires
        is_sorted_desc(sorted),
    ensures
        is_sorted_desc(insert_desc(sorted, f)),
        insert_desc(sorted, f).to_multiset() == sorted.to_multiset().insert(f),
        insert_desc(sorted, f).len() == sorted.len() + 1,
    decreases sorted.len(),
{
    broadcast use vstd::seq_lib::group_to_multiset_ensures;

    if sorted.len() == 0 {
        assert(seq![f] =~= Seq::<FixView>::empty().push(f));
    } else if sorted[0].span.start >= f.span.start {
        let rest = sorted.drop_first();
        lemma_insert_desc(rest, f);
        let r = insert_desc(rest, f);
        assert(sorted =~= seq![sorted[0]] + rest);
        let out = seq![sorted[0]] + r;
        assert forall|i: int, j: int| 0 <= i < j < out.len() implies out[i].span.start
            >= out[j].span.start by {
            if i == 0 {
                let x = out[j];
                assert(x == r[j - 1]);
                assert(r.to_multiset().count(x) > 0);
                assert(r.to_multiset() == rest.to_multiset().insert(f));
                if x != f {
                    assert(rest.to_multiset().count(x) > 0);
                    assert(rest.contains(x));
                    let k = choose|k: int| 0 <= k < rest.len() && rest[k] == x;
                    assert(sorted[k + 1] == x);
                }
            } else {
                assert(out[i] == r[i - 1]);
                assert(out[j] == r[j - 1]);
            }
        }
        vstd::seq_lib::lemma_multiset_commutative(seq![sorted[0]], r);
        vstd::seq_lib::lemma_multiset_commutative(seq![sorted[0]], rest);
    } else {
        let out = seq![f] + sorted;
        assert forall|i: int, j: int| 0 <= i < j < out.len() implies out[i].span.start
            >= out[j].span.start by {
            if i == 0 {
                assert(out[j] == sorted[j - 1]);
                assert(sorted[0].span.start >= sorted[j - 1].span.start);
            } else {
                assert(out[i] == sorted[i - 1]);
                assert(out[j] == sorted[j - 1]);
            }
        }
        vstd::seq_lib::lemma_multiset_commutative(seq![f], sorted);
    }
}

/// Sorting by decreasing start gives a sorted arrangement of the same fixes.
pub proof fn lemma_sorted_desc(s: Seq<FixView>)
    ensures
        is_sorted_desc(sorted_desc(s)),
        sorted_desc(s).to_multiset() == s.to_multiset(),
        sorted_desc(s).len() == s.len(),
    decreases s.len(),
{
    broadcast use vstd::seq_lib::group_to_multiset_ensures;

    if s.len() > 0 {
        lemma_sorted_desc(s.drop_last());
        lemma_insert_desc(sorted_desc(s.drop_last()), s.last());
        assert(s =~= s.drop_last().push(s.last()));
    }
}

fn clone_fix(f: &Fix) -> (r: Fix)
    ensures
        r@ == f@,
{
    Fix { span: f.span, suggestion: f.suggestion.clone() }
}

/// Sorts fixes by decreasing start; fixes with the same start keep their order.
pub fn sort_fixes_desc(fixes: Vec<Fix>) -> (r: Vec<Fix>)
    ensures
        fix_views(r@) == sorted_desc(fix_views(fixes@)),
{
    let mut sorted: Vec<Fix> = Vec::new();
    let mut i: usize = 0;
    let ghost input = fix_views(fixes@);
    assert(input.take(0) =~= Seq::<FixView>::empty());
    while i < fixes.len()
        invariant
            input == fix_views(fixes@),
            i <= fixes@.len(),
            fix_views(sorted@) == sorted_desc(input.take(i as int)),
        decreases fixes@.len() - i,
    {
        let f = clone_fix(&fixes[i]);
        let mut k: usize = 0;
        let ghost before = fix_views(sorted@);
        assert(before.take(0) + before.skip(0) =~= before);
        assert(before.take(0) =~= Seq::<FixView>::empty());
        assert(before.skip(0) =~= before);
        while k < sorted.len() && sorted[k].span.start >= f.span.start
            invariant
                before == fix_views(sorted@),
                k <= sorted@.len(),
                insert_desc(before, f@) == before.take(k as int) + insert_desc(
                    before.skip(k as int),
                    f@,
                ),
            decreases sorted@.len() - k,
        {
            assert(before.skip(k as int).drop_first() =~= before.skip(k + 1));
            assert(before.take(k + 1) =~= before.take(k as int).push(before[k as int]));
            k = k + 1;
        }
        assert(insert_desc(before.skip(k as int), f@) =~= seq![f@] + before.skip(k as int));
        sorted.insert(k, f);
        assert(fix_views(sorted@) =~= before.take(k as int) + (seq![f@] + before.skip(k as int)));
        assert(input.take(i + 1).drop_last() =~= input.take(i as int));
        i = i + 1;
    }
    assert(input.take(fixes@.len() as int) =~= input);
    sorted
}

/// The fixes that keep clear of the next one: each fix but the last that starts
/// at or after the end of the fix after it, and the last fix, which has none
/// after it.
pub open spec fn fixable(s: Seq<FixView>) -> Seq<FixView> {
    if s.len() == 0 {
        s
    } else {
        keep_clear(s, s.len() - 1).push(s.last())
    }
}

/// The fixes at indices below `n` that start at or after the end of the next.
pub open spec fn keep_clear(s: Seq<FixView>, n: int) -> Seq<FixView>
    decreases n,
{
    if n <= 0 {
        Seq::empty()
    } else {
        keep_clear(s, n - 1) + if s[n - 1].span.start >= s[n].span.end {
            seq![s[n - 1]]
        } else {
            Seq::<FixView>::empty()
        }
    }
}

proof fn lemma_keep_clear_members(s: Seq<FixView>, n: int)
    requires
        0 <= n < s.len(),
    ensures
        forall|k: int|
            0 <= k < keep_clear(s, n).len() ==> exists|j: int|
                0 <= j < n && #[trigger] keep_clear(s, n)[k] == s[j],
    decreases n,
{
    if n > 0 {
        lemma_keep_clear_members(s, n - 1);
        let rest = keep_clear(s, n - 1);
        let all = keep_clear(s, n);
        assert forall|k: int| 0 <= k < all.len() implies exists|j: int|
            0 <= j < n && #[trigger] all[k] == s[j] by {
            if k < rest.len() {
                assert(all[k] == rest[k]);
                let j = choose|j: int| 0 <= j < n - 1 && #[trigger] rest[k] == s[j];
                assert(all[k] == s[j]);
            } else {
                assert(all[k] == s[n - 1]);
            }
        }
    }
}

proof fn lemma_keep_clear_sorted(s: Seq<FixView>, n: int)
    requires
        is_sorted_desc(s),
        0 <= n < s.len(),
    ensures
        is_sorted_desc(keep_clear(s, n)),
    decreases n,
{
    if n > 0 {
        lemma_keep_clear_sorted(s, n - 1);
        lemma_keep_clear_members(s, n - 1);
        let rest = keep_clear(s, n - 1);
        let all = keep_clear(s, n);
        assert forall|i: int, k: int| 0 <= i < k < all.len() implies all[i].span.start
            >= all[k].span.start by {
            if k < rest.len() {
                assert(all[i] == rest[i] && all[k] == rest[k]);
            } else {
                assert(all[i] == rest[i]);
                assert(all[k] == s[n - 1]);
                let j = choose|j: int| 0 <= j < n - 1 && #[trigger] rest[i] == s[j];
                assert(s[j].span.start >= s[n - 1].span.start);
            }
        }
    }
}

/// Selecting the fixes that keep clear of the next one keeps a list sorted by
/// decreasing start sorted, and each selected fix is one of the list.
pub proof fn lemma_fixable_sorted(s: Seq<FixView>)
    requires
        is_sorted_desc(s),
    ensures
        is_sorted_desc(fixable(s)),
        forall|k: int| 0 <= k < fixable(s).len() ==> s.contains(#[trigger] fixable(s)[k]),
{
    if s.len() > 0 {
        let n = s.len() - 1;
        lemma_keep_clear_sorted(s, n);
        lemma_keep_clear_members(s, n);
        let kept = keep_clear(s, n);
        let all = fixable(s);
        assert forall|k: int| 0 <= k < all.len() implies s.contains(#[trigger] all[k]) by {
            if k < kept.len() {
                let j = choose|j: int| 0 <= j < n && #[trigger] kept[k] == s[j];
                assert(s[j] == all[k]);
            } else {
                assert(all[k] == s[n]);
            }
        }
        assert forall|i: int, k: int| 0 <= i < k < all.len() implies all[i].span.start
            >= all[k].span.start by {
            if k < kept.len() {
                assert(all[i] == kept[i] && all[k] == kept[k]);
            } else {
                assert(all[i] == kept[i]);
                assert(all[k] == s[n]);
                let j = choose|j: int| 0 <= j < n && #[trigger] kept[i] == s[j];
                assert(s[j].span.start >= s[n].span.start);
            }
        }
    }
}

/// The fixes to apply, in order: of the fixes sorted by decreasing start, each
/// that starts at or after the end of the next one, and the last one.
pub fn select_fixable(fixes: &Vec<Fix>) -> (r: Vec<Fix>)
    ensures
        fix_views(r@) == fixable(fix_views(fixes@)),
{
    let ghost s = fix_views(fixes@);
    let mut out: Vec<Fix> = Vec::new();
    if fixes.len() == 0 {
        return out;
    }
    let mut i: usize = 0;
    assert(fix_views(out@) =~= keep_clear(s, 0));
    while i < fixes.len() - 1
        invariant
            s == fix_views(fixes@),
            fixes@.len() >= 1,
            i <= fixes@.len() - 1,
            fix_views(out@) == keep_clear(s, i as int),
        decreases fixes@.len() - 1 - i,
    {
        let first = fixes[i].span;
        let second = fixes[i + 1].span;
        let ghost before = fix_views(out@);
        if first.start >= second.end {
            out.push(clone_fix(&fixes[i]));
        }
        assert(fix_views(out@) =~= keep_clear(s, i + 1));
        i = i + 1;
    }
    let ghost kept = fix_views(out@);
    out.push(clone_fix(&fixes[fixes.len() - 1]));
    assert(fix_views(out@) =~= kept.push(s.last()));
    out
}

/// `content` with the bytes of `span` replaced by the UTF-8 bytes of
/// `suggestion`.
pub open spec fn replaced(content: Seq<u8>, span: TextSpan, suggestion: Seq<char>) -> Seq<u8> {
    content.take(span.start as int) + encode_utf8(suggestion) + content.skip(span.end as int)
}

/// The fixes applied one after the other, each to the text the previous left.
pub open spec fn applied(content: Seq<u8>, fixes: Seq<FixView>) -> Seq<u8>
    decreases fixes.len(),
{
    if fixes.len() == 0 {
        content
    } else {
        applied(replaced(content, fixes[0].span, fixes[0].suggestion), fixes.drop_first())
    }
}

/// Each fix's span lies within the text that the fixes before it leave, and
/// begins and ends at character boundaries of it.
pub open spec fn applicable(content: Seq<u8>, fixes: Seq<FixView>) -> bool
    decreases fixes.len(),
{
    fixes.len() == 0 || (fixes[0].span.start <= fixes[0].span.end <= content.len()
        && is_char_boundary(content, fixes[0].span.start as int) && is_char_boundary(
        content,
        fixes[0].span.end as int,
    ) && applicable(
        replaced(content, fixes[0].span, fixes[0].suggestion),
        fixes.drop_first(),
    ))
}

/// Applies the fixes to a file's bytes, in order, each replacing its span.
pub fn apply_fixes(content: &Vec<u8>, fixes: &Vec<Fix>) -> (r: Vec<u8>)
    requires
        applicable(content@, fix_views(fixes@)),
    ensures
        r@ == applied(content@, fix_views(fixes@)),
{
    let ghost s = fix_views(fixes@);
    let mut text: Vec<u8> = content.clone();
    let mut i: usize = 0;
    assert(s.skip(0) =~= s);
    while i < fixes.len()
        invariant
            s == fix_views(fixes@),
            i <= fixes@.len(),
            applicable(text@, s.skip(i as int)),
            applied(text@, s.skip(i as int)) == applied(content@, s),
        decreases fixes@.len() - i,
    {
        let fix = &fixes[i];
        assert(s.skip(i as int)[0] == fix@);
        assert(s.skip(i as int).drop_first() =~= s.skip(i + 1));
        let mut next: Vec<u8> = Vec::new();
        let mut k: usize = 0;
        while k < fix.span.start
            invariant
                fix.span.start <= text@.len(),
                k <= fix.span.start,
                next@ == text@.take(k as int),
            decreases fix.span.start - k,
        {
            next.push(text[k]);
            assert(next@ =~= text@.take(k + 1));
            k = k + 1;
        }
        let bytes = fix.suggestion.as_str().as_bytes();
        let ghost sb = encode_utf8(fix.suggestion@);
        assert(bytes@ == sb);
        let mut j: usize = 0;
        while j < bytes.len()
            invariant
                bytes@ == sb,
                j <= sb.len(),
                next@ == text@.take(fix.span.start as int) + sb.take(j as int),
            decreases sb.len() - j,
        {
            next.push(bytes[j]);
            assert(next@ =~= text@.take(fix.span.start as int) + sb.take(j + 1));
            j = j + 1;
        }
        assert(sb.take(sb.len() as int) =~= sb);
        let mut k: usize = fix.span.end;
        while k < text.len()
            invariant
                fix.span.end <= k <= text@.len(),
                next@ == text@.take(fix.span.start as int) + encode_utf8(fix.suggestion@)
                    + text@.subrange(fix.span.end as int, k as int),
            decreases text@.len() - k,
        {
            next.push(text[k]);
            assert(next@ =~= text@.take(fix.span.start as int) + encode_utf8(fix.suggestion@)
                + text@.subrange(fix.span.end as int, k + 1));
            k = k + 1;
        }
        assert(text@.subrange(fix.span.end as int, text@.len() as int) =~= text@.skip(
            fix.span.end as int,
        ));
        text = next;
        i = i + 1;
    }
    text
}

/// Each fix's span is ordered, and each fix ends at or before the start of the
/// fix before it: the fixes are sorted by decreasing start and do not overlap.
pub open spec fn disjoint_desc(fixes: Seq<FixView>) -> bool {
    &&& forall|i: int| 0 <= i < fixes.len() ==> #[trigger] fixes[i].span.start <= fixes[i].span.end
    &&& forall|i: int|
        0 < i < fixes.len() ==> #[trigger] fixes[i].span.end <= fixes[i - 1].span.start
}

/// Each fix's suggestion put in place of its span of `content` itself.
pub open spec fn in_place(content: Seq<u8>, fixes: Seq<FixView>) -> Seq<u8>
    decreases fixes.len(),
{
    if fixes.len() == 0 {
        content
    } else {
        in_place(content.take(fixes[0].span.start as int), fixes.drop_first()) + encode_utf8(
            fixes[0].suggestion,
        ) + content.skip(fixes[0].span.end as int)
    }
}

proof fn lemma_applied_prefix(p: Seq<u8>, q: Seq<u8>, fixes: Seq<FixView>)
    requires
        disjoint_desc(fixes),
        fixes.len() > 0 ==> fixes[0].span.end <= p.len(),
    ensures
        applied(p + q, fixes) == applied(p, fixes) + q,
    decreases fixes.len(),
{
    if fixes.len() > 0 {
        let f = fixes[0];
        assert(f.span.start <= f.span.end);
        let rest = fixes.drop_first();
        assert((p + q).take(f.span.start as int) =~= p.take(f.span.start as int));
        assert((p + q).skip(f.span.end as int) =~= p.skip(f.span.end as int) + q);
        assert(replaced(p + q, f.span, f.suggestion) =~= replaced(p, f.span, f.suggestion) + q);
        assert(disjoint_desc(rest)) by {
            assert forall|i: int| 0 <= i < rest.len() implies #[trigger] rest[i].span.start
                <= rest[i].span.end by {
                assert(rest[i] == fixes[i + 1]);
            }
            assert forall|i: int| 0 < i < rest.len() implies #[trigger] rest[i].span.end
                <= rest[i - 1].span.start by {
                assert(rest[i] == fixes[i + 1]);
                assert(rest[i - 1] == fixes[i]);
            }
        }
        if rest.len() > 0 {
            assert(rest[0] == fixes[1]);
            assert(fixes[1].span.end <= fixes[0].span.start);
        }
        lemma_applied_prefix(replaced(p, f.span, f.suggestion), q, rest);
    }
}

/// Fixes sorted by decreasing start that do not overlap, applied one after the
/// other, give the text in which each fix's suggestion stands in place of its
/// own span of the original text: applying from the end backwards leaves the
/// spans of the fixes still to come where they were.
pub proof fn lemma_applied_in_place(content: Seq<u8>, fixes: Seq<FixView>)
    requires
        disjoint_desc(fixes),
        fixes.len() > 0 ==> fixes[0].span.end <= content.len(),
    ensures
        applied(content, fixes) == in_place(content, fixes),
    decreases fixes.len(),
{
    if fixes.len() > 0 {
        let f = fixes[0];
        assert(f.span.start <= f.span.end);
        let rest = fixes.drop_first();
        let p = content.take(f.span.start as int);
        let q = encode_utf8(f.suggestion) + content.skip(f.span.end as int);
        assert(replaced(content, f.span, f.suggestion) =~= p + q);
        assert(disjoint_desc(rest)) by {
            assert forall|i: int| 0 <= i < rest.len() implies #[trigger] rest[i].span.start
                <= rest[i].span.end by {
                assert(rest[i] == fixes[i + 1]);
            }
            assert forall|i: int| 0 < i < rest.len() implies #[trigger] rest[i].span.end
                <= rest[i - 1].span.start by {
                assert(rest[i] == fixes[i + 1]);
                assert(rest[i - 1] == fixes[i]);
            }
        }
        if rest.len() > 0 {
            assert(rest[0] == fixes[1]);
            assert(fixes[1].span.end <= fixes[0].span.start);
        }
        lemma_applied_prefix(p, q, rest);
        lemma_applied_in_place(p, rest);
        assert(applied(p, rest) + q =~= in_place(p, rest) + encode_utf8(f.suggestion)
            + content.skip(f.span.end as int));
    }
}

} // verus!
