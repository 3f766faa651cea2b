//! Fixes: the text that replaces the node of a diagnostic.
use vstd::prelude::*;

use crate::syntax::NodeRef;
use crate::text::{
    append,
    chars_of,
    free_of,
    is_ws,
    leading_ws,
    leading_ws_exec,
    utf8_len_capped,
    utf8_len_exec,
    lemma_repeat_spaces,
    lemma_split_first,
    lemma_split_free,
    lemma_split_len,
    lemma_split_none,
    lemma_trim_free,
    lemma_trim_padded,
    lemma_trim_twice,
    repeat,
    repeat_exec,
    split,
    split_exec,
    string_of,
    trim,
    trim_exec,
    views,
};

pub mod apply;
pub mod dispatch;
pub mod helper;
pub mod import_fixes;
pub mod manual_fixes;
pub mod rewrites;

verus! {

/// Rewrites the code that a lint reports into the code that it suggests.
#[derive(Debug, Default)]
pub struct Fixer;

/// A fix as values: the node to replace and its replacement text.
pub open spec fn fix_view(r: Option<(NodeRef, String)>) -> Option<(NodeRef, Seq<char>)> {
    match r {
        Some((n, t)) => Some((n, t@)),
        None => None,
    }
}

/// The indentation level of a text: the bytes of its leading whitespace,
/// by four.
pub open spec fn indent_level(text: Seq<char>) -> nat {
    utf8_len_capped(leading_ws(text)) / 4
}

/// The snippet re-indented from `level`, where the level and the snippet's
/// length leave room below `usize::MAX`.
pub open spec fn indent_within(input: Seq<char>, level: nat) -> Option<Seq<char>> {
    if level + input.len() < usize::MAX {
        Some(indented(input, level))
    } else {
        None
    }
}

/// The indentation level of a text.
pub fn indent_level_exec(text: &Vec<char>) -> (r: usize)
    ensures
        r == indent_level(text@),
{
    utf8_len_exec(&leading_ws_exec(text)) / 4
}

/// Re-indents `input` from `level` where there is room for it.
pub fn indent_checked(input: &Vec<char>, level: usize) -> (r: Option<String>)
    ensures
        match r {
            Some(t) => indent_within(input@, level as nat) == Some(t@),
            None => indent_within(input@, level as nat) is None,
        },
{
    if level < usize::MAX - input.len() {
        Some(indent_snippet(string_of(input).as_str(), level))
    } else {
        None
    }
}

/// The lines, trimmed and re-indented by four spaces a level: a line that
/// begins with `}` is one level less (never below zero), and the line after one
/// that ends with `{` one level more; empty lines get no indentation.
pub open spec fn indented_lines(lines: Seq<Seq<char>>, level: nat) -> Seq<char>
    decreases lines.len(),
{
    if lines.len() == 0 {
        Seq::empty()
    } else {
        let t = trim(lines[0]);
        let lvl: nat = if t.len() > 0 && t[0] == '}' && level > 0 {
            (level - 1) as nat
        } else {
            level
        };
        let next: nat = if t.len() > 0 && t.last() == '{' {
            lvl + 1
        } else {
            lvl
        };
        (if t.len() > 0 {
            repeat("    "@, lvl)
        } else {
            Seq::empty()
        }) + t + (if lines.len() > 1 {
            seq!['\n']
        } else {
            Seq::empty()
        }) + indented_lines(lines.drop_first(), next)
    }
}

/// The text re-indented line by line from `initial` levels on.
pub open spec fn indented(input: Seq<char>, initial: nat) -> Seq<char> {
    indented_lines(split(input, seq!['\n']), initial)
}

/// Re-indents a snippet of code: each line is trimmed and indented by four
/// spaces per level, starting at `initial_indentation`; a line that begins with
/// `}` closes a level and one that ends with `{` opens one.
pub fn indent_snippet(input: &str, initial_indentation: usize) -> (r: String)
    requires
        initial_indentation + input@.len() < usize::MAX,
    ensures
        r@ == indented(input@, initial_indentation as nat),
{
    let chars = chars_of(input);
    let mut newline: Vec<char> = Vec::new();
    newline.push('\n');
    let lines = split_exec(&chars, &newline);
    let ghost lv = views(lines@);
    proof {
        lemma_split_len(input@, seq!['\n']);
    }
    let indent = chars_of("    ");
    let mut indented_code: Vec<char> = Vec::new();
    let mut indentation_level: usize = initial_indentation;
    let mut i: usize = 0;
    assert(lv.skip(0) =~= lv);
    while i < lines.len()
        invariant
            lv == views(lines@),
            lv == split(input@, seq!['\n']),
            lv.len() <= input@.len() + 1,
            initial_indentation + input@.len() < usize::MAX,
            indent@ == "    "@,
            i <= lines@.len(),
            indentation_level <= initial_indentation + i,
            indented_code@ + indented_lines(lv.skip(i as int), indentation_level as nat) == indented(
                input@,
                initial_indentation as nat,
            ),
        decreases lines@.len() - i,
    {
        let trimmed = trim_exec(&lines[i]);
        let ghost before = indented_code@;
        let ghost lvl0 = indentation_level;
        let ghost rest = lv.skip(i as int);
        assert(rest[0] == lines@[i as int]@);
        assert(rest.drop_first() =~= lv.skip(i + 1));
        if trimmed.len() > 0 && trimmed[0] == '}' && indentation_level > 0 {
            indentation_level = indentation_level - 1;
        }
        if trimmed.len() > 0 {
            append(&mut indented_code, &repeat_exec(&indent, indentation_level));
        }
        append(&mut indented_code, &trimmed);
        if i + 1 < lines.len() {
            indented_code.push('\n');
        }
        if trimmed.len() > 0 && trimmed[trimmed.len() - 1] == '{' {
            indentation_level = indentation_level + 1;
        }
        assert(indented_code@ + indented_lines(lv.skip(i + 1), indentation_level as nat) =~= before
            + indented_lines(rest, lvl0 as nat));
        i = i + 1;
    }
    string_of(&indented_code)
}

/// Re-indenting the output of `indented_lines` at its line breaks, from the
/// same level, gives it back.
proof fn lemma_indented_lines_again(lines: Seq<Seq<char>>, level: nat)
    requires
        forall|i: int| 0 <= i < lines.len() ==> free_of(#[trigger] lines[i], '\n'),
    ensures
        indented_lines(split(indented_lines(lines, level), seq!['\n']), level) == indented_lines(
            lines,
            level,
        ),
    decreases lines.len(),
{
    let nl = seq!['\n'];
    let o = indented_lines(lines, level);
    if lines.len() == 0 {
        lemma_split_none(o, '\n');
        assert(trim(Seq::<char>::empty()) =~= Seq::<char>::empty()) by {
            lemma_trim_twice(Seq::<char>::empty());
            assert(crate::text::trim_start(Seq::<char>::empty()) =~= Seq::<char>::empty());
        }
        assert(o == Seq::<char>::empty());
        assert(seq![o].drop_first() =~= Seq::<Seq<char>>::empty());
        assert(indented_lines(seq![o].drop_first(), level) == Seq::<char>::empty());
        assert(indented_lines(seq![o], level) =~= o);
    } else {
        let t = trim(lines[0]);
        let lvl: nat = if t.len() > 0 && t[0] == '}' && level > 0 {
            (level - 1) as nat
        } else {
            level
        };
        let next: nat = if t.len() > 0 && t.last() == '{' {
            lvl + 1
        } else {
            lvl
        };
        let pad = if t.len() > 0 {
            repeat("    "@, lvl)
        } else {
            Seq::empty()
        };
        let head = pad + t;
        lemma_trim_free(lines[0], '\n');
        lemma_repeat_spaces(lvl);
        assert forall|k: int| 0 <= k < pad.len() implies is_ws(#[trigger] pad[k]) && pad[k]
            != '\n' by {
            assert(pad[k] == ' ');
        }
        assert(free_of(head, '\n')) by {
            assert forall|k: int| 0 <= k < head.len() implies head[k] != '\n' by {
                if k < pad.len() {
                    assert(head[k] == pad[k]);
                } else {
                    assert(head[k] == t[k - pad.len()]);
                }
            }
        }
        lemma_trim_padded(pad, t, Seq::empty());
        assert(pad + t + Seq::<char>::empty() =~= head);
        lemma_trim_twice(lines[0]);
        assert(trim(head) == t);
        let rest = lines.drop_first();
        if lines.len() == 1 {
            assert(rest.len() == 0);
            assert(indented_lines(rest, next) == Seq::<char>::empty());
            assert(o =~= head);
            lemma_split_none(head, '\n');
            assert(seq![head].drop_first() =~= Seq::<Seq<char>>::empty());
            assert(indented_lines(seq![head].drop_first(), next) == Seq::<char>::empty());
            assert(indented_lines(seq![head], level) =~= head);
        } else {
            let orest = indented_lines(rest, next);
            assert forall|i: int| 0 <= i < rest.len() implies free_of(#[trigger] rest[i], '\n') by {
                assert(rest[i] == lines[i + 1]);
            }
            lemma_indented_lines_again(rest, next);
            assert(o =~= head + nl + orest);
            let n = head.len() as int;
            assert(o.subrange(n, n + 1) =~= nl);
            assert forall|j: int| 0 <= j < n implies !#[trigger] crate::text::occurs_at(o, nl, j) by {
                if crate::text::occurs_at(o, nl, j) {
                    assert(o.subrange(j, j + 1)[0] == o[j]);
                    assert(o[j] == head[j]);
                }
            }
            lemma_split_first(o, nl, n);
            assert(o.take(n) =~= head);
            assert(o.skip(n + 1) =~= orest);
            lemma_split_free(orest, '\n');
            let pieces = split(o, nl);
            assert(pieces == seq![head] + split(orest, nl));
            assert(pieces[0] == head);
            assert(pieces.drop_first() =~= split(orest, nl));
            assert(indented_lines(pieces, level) =~= head + nl + indented_lines(split(orest, nl), next));
        }
    }
}

/// Re-indenting a re-indented snippet from the same level changes nothing:
/// the lines are trimmed again and the levels, which depend only on the
/// trimmed lines, come out the same.
pub proof fn lemma_indent_idempotent(input: Seq<char>, level: nat)
    ensures
        indented(indented(input, level), level) == indented(input, level),
{
    lemma_split_free(input, '\n');
    lemma_indented_lines_again(split(input, seq!['\n']), level);
}

} // verus!
