//! Text helpers for the fixes that turn a `loop` into a `while`: the body of a
//! block without its `break`s, an `else` clause, and the negation of a condition.
use vstd::prelude::*;

use crate::syntax::{BlockOrIf, ElseClause, ExprBlock, Statement, StatementKind};
use crate::text::{
    append,
    chars_of,
    contains,
    contains_exec,
    free_of,
    is_ws,
    join,
    join_exec,
    lemma_join_first,
    lemma_join_free,
    lemma_occurs_at_chars,
    lemma_padded_pieces_trim,
    lemma_replace_single,
    lemma_split_join,
    lemma_trim_shape,
    occurs_at,
    spaced,
    replace,
    replace_exec,
    split,
    split_exec,
    string_of,
    trim,
    trim_exec,
    views,
};

verus! {

/// The lines of a block's statements other than `break`s, each indented by
/// `indent` and four spaces.
pub open spec fn block_lines(statements: Seq<Statement>, indent: Seq<char>) -> Seq<char>
    decreases statements.len(),
{
    if statements.len() == 0 {
        Seq::empty()
    } else {
        let s = statements.last();
        block_lines(statements.drop_last(), indent) + if s.kind is Break {
            Seq::empty()
        } else {
            indent + "    "@ + s.node.text_without_trivia@ + "\n"@
        }
    }
}

fn block_lines_exec(block: &ExprBlock, indent: &Vec<char>) -> (r: Vec<char>)
    ensures
        r@ == block_lines(block.statements@, indent@),
{
    let mut body: Vec<char> = Vec::new();
    let four = chars_of("    ");
    let newline = chars_of("\n");
    let mut i: usize = 0;
    while i < block.statements.len()
        invariant
            i <= block.statements@.len(),
            four@ == "    "@,
            newline@ == "\n"@,
            body@ == block_lines(block.statements@.take(i as int), indent@),
        decreases block.statements@.len() - i,
    {
        let statement = &block.statements[i];
        let ghost before = body@;
        match statement.kind {
            StatementKind::Break => {},
            _ => {
                append(&mut body, indent);
                append(&mut body, &four);
                append(&mut body, &chars_of(statement.node.text_without_trivia.as_str()));
                append(&mut body, &newline);
            },
        }
        assert(block.statements@.take(i + 1).drop_last() =~= block.statements@.take(i as int));
        assert(body@ =~= block_lines(block.statements@.take(i + 1), indent@));
        i = i + 1;
    }
    assert(block.statements@.take(block.statements@.len() as int) =~= block.statements@);
    body
}

/// The statements of a block other than `break`s, one per line, each indented
/// by `indent` and four spaces.
pub fn process_block(block: &ExprBlock, indent: &str) -> (r: String)
    ensures
        r@ == block_lines(block.statements@, indent@),
{
    string_of(&block_lines_exec(block, &chars_of(indent)))
}

/// The text of an `else` clause for a `while` loop: the lines of its block, or
/// for `else if`, the condition, the lines of its block and a closing brace.
pub open spec fn else_clause_text(else_clause: ElseClause, indent: Seq<char>) -> Seq<char> {
    match else_clause.else_block_or_if {
        BlockOrIf::Block(b) => block_lines(b.statements@, indent),
        BlockOrIf::If(e) => indent + "else if "@ + e.condition.node.text_without_trivia@ + " {\n"@
            + block_lines(e.if_block.statements@, indent) + indent + "}\n"@,
    }
}

/// The body of an `else` clause without its `break`s: the lines of its block,
/// or for `else if`, the condition, the lines of its block and a closing brace.
pub fn process_else_clause(else_clause: &ElseClause, indent: &str) -> (r: String)
    ensures
        r@ == else_clause_text(*else_clause, indent@),
{
    let ind = chars_of(indent);
    match &else_clause.else_block_or_if {
        BlockOrIf::Block(block) => string_of(&block_lines_exec(block, &ind)),
        BlockOrIf::If(else_if) => {
            let mut body: Vec<char> = Vec::new();
            append(&mut body, &ind);
            append(&mut body, &chars_of("else if "));
            append(&mut body, &chars_of(else_if.condition.node.text_without_trivia.as_str()));
            append(&mut body, &chars_of(" {\n"));
            append(&mut body, &block_lines_exec(&else_if.if_block, &ind));
            append(&mut body, &ind);
            append(&mut body, &chars_of("}\n"));
            string_of(&body)
        },
    }
}

/// The negation of a single comparison: its operator replaced by the opposite
/// one (the first of `>=`, `<=`, `>`, `<`, `==`, `!=` that it holds, at every
/// occurrence), or the whole condition wrapped in `!( )`.
pub open spec fn inverted_simple(c: Seq<char>) -> Seq<char> {
    if contains(c, ">="@) {
        replace(c, ">="@, "<"@)
    } else if contains(c, "<="@) {
        replace(c, "<="@, ">"@)
    } else if contains(c, ">"@) {
        replace(c, ">"@, "<="@)
    } else if contains(c, "<"@) {
        replace(c, "<"@, ">="@)
    } else if contains(c, "=="@) {
        replace(c, "=="@, "!="@)
    } else if contains(c, "!="@) {
        replace(c, "!="@, "=="@)
    } else {
        "!("@ + c + ")"@
    }
}

/// The negation of a conjunction: for `a && b` the negations of the trimmed
/// parts joined by `||`, in parentheses; else the negation of the whole.
pub open spec fn inverted_conjunction(c: Seq<char>) -> Seq<char> {
    if contains(c, "&&"@) {
        "("@ + join(split(c, "&&"@).map_values(|p: Seq<char>| inverted_simple(trim(p))), " || "@)
            + ")"@
    } else {
        inverted_simple(c)
    }
}

/// The negation of a condition, by De Morgan's laws with `&&` binding tighter
/// than `||`: for `a || b` the negations of the trimmed disjuncts joined by
/// `&&`; for `a && b` the negations of the trimmed parts joined by `||`; else
/// the negation of the whole.
pub open spec fn inverted(c: Seq<char>) -> Seq<char> {
    if contains(c, "||"@) {
        join(split(c, "||"@).map_values(|p: Seq<char>| inverted_conjunction(trim(p))), " && "@)
    } else if contains(c, "&&"@) {
        join(split(c, "&&"@).map_values(|p: Seq<char>| inverted_simple(trim(p))), " || "@)
    } else {
        inverted_simple(c)
    }
}

fn replace_op(c: &Vec<char>, op: &str, by: &str) -> (r: Vec<char>)
    requires
        op@.len() > 0,
    ensures
        r@ == replace(c@, op@, by@),
{
    replace_exec(c, &chars_of(op), &chars_of(by))
}

fn invert_simple_chars(c: &Vec<char>) -> (r: Vec<char>)
    ensures
        r@ == inverted_simple(c@),
{
    proof {
        reveal_strlit(">=");
        reveal_strlit("<=");
        reveal_strlit(">");
        reveal_strlit("<");
        reveal_strlit("==");
        reveal_strlit("!=");
    }
    if contains_exec(c, &chars_of(">=")) {
        replace_op(c, ">=", "<")
    } else if contains_exec(c, &chars_of("<=")) {
        replace_op(c, "<=", ">")
    } else if contains_exec(c, &chars_of(">")) {
        replace_op(c, ">", "<=")
    } else if contains_exec(c, &chars_of("<")) {
        replace_op(c, "<", ">=")
    } else if contains_exec(c, &chars_of("==")) {
        replace_op(c, "==", "!=")
    } else if contains_exec(c, &chars_of("!=")) {
        replace_op(c, "!=", "==")
    } else {
        let mut r = chars_of("!(");
        append(&mut r, c);
        append(&mut r, &chars_of(")"));
        r
    }
}

/// Inverts a simple condition: `>=` becomes `<`, `==` becomes `!=`, and so on;
/// a condition with no comparison becomes `!(condition)`.
pub fn invert_simple_condition(condition: &str) -> (r: String)
    ensures
        r@ == inverted_simple(condition@),
{
    string_of(&invert_simple_chars(&chars_of(condition)))
}

fn invert_parts(c: &Vec<char>, sep: &str, joiner: &str) -> (r: Vec<char>)
    requires
        sep@.len() > 0,
    ensures
        r@ == join(split(c@, sep@).map_values(|p: Seq<char>| inverted_simple(trim(p))), joiner@),
{
    let parts = split_exec(c, &chars_of(sep));
    let ghost pv = views(parts@);
    let mut out: Vec<Vec<char>> = Vec::new();
    let mut i: usize = 0;
    while i < parts.len()
        invariant
            i <= parts@.len(),
            pv == views(parts@),
            views(out@) == pv.take(i as int).map_values(|p: Seq<char>| inverted_simple(trim(p))),
        decreases parts@.len() - i,
    {
        let inv = invert_simple_chars(&trim_exec(&parts[i]));
        let ghost before = views(out@);
        out.push(inv);
        assert(views(out@) =~= before.push(inv@));
        assert(pv.take(i + 1).map_values(|p: Seq<char>| inverted_simple(trim(p))) =~= pv.take(
            i as int,
        ).map_values(|p: Seq<char>| inverted_simple(trim(p))).push(inverted_simple(trim(pv[i as int]))));
        i = i + 1;
    }
    assert(pv.take(parts@.len() as int) =~= pv);
    join_exec(&out, &chars_of(joiner))
}

fn invert_conjunction_chars(c: &Vec<char>) -> (r: Vec<char>)
    ensures
        r@ == inverted_conjunction(c@),
{
    proof {
        reveal_strlit("&&");
    }
    if contains_exec(c, &chars_of("&&")) {
        let mut r = chars_of("(");
        append(&mut r, &invert_parts(c, "&&", " || "));
        append(&mut r, &chars_of(")"));
        r
    } else {
        invert_simple_chars(c)
    }
}

fn invert_disjuncts(c: &Vec<char>) -> (r: Vec<char>)
    ensures
        r@ == join(
            split(c@, "||"@).map_values(|p: Seq<char>| inverted_conjunction(trim(p))),
            " && "@,
        ),
{
    proof {
        reveal_strlit("||");
    }
    let parts = split_exec(c, &chars_of("||"));
    let ghost pv = views(parts@);
    let mut out: Vec<Vec<char>> = Vec::new();
    let mut i: usize = 0;
    while i < parts.len()
        invariant
            i <= parts@.len(),
            pv == views(parts@),
            views(out@) == pv.take(i as int).map_values(
                |p: Seq<char>| inverted_conjunction(trim(p)),
            ),
        decreases parts@.len() - i,
    {
        let inv = invert_conjunction_chars(&trim_exec(&parts[i]));
        let ghost before = views(out@);
        out.push(inv);
        assert(views(out@) =~= before.push(inv@));
        assert(pv.take(i + 1).map_values(|p: Seq<char>| inverted_conjunction(trim(p))) =~= pv.take(
            i as int,
        ).map_values(|p: Seq<char>| inverted_conjunction(trim(p))).push(
            inverted_conjunction(trim(pv[i as int])),
        ));
        i = i + 1;
    }
    assert(pv.take(parts@.len() as int) =~= pv);
    join_exec(&out, &chars_of(" && "))
}

/// Inverts a logical condition by De Morgan's laws: each disjunct of `a || b`
/// is inverted (a conjunction into a parenthesized disjunction of the inverted
/// parts) and the results joined with `&&`; the parts of `a && b` are inverted
/// and joined with `||`.
pub fn invert_condition(condition: &str) -> (r: String)
    ensures
        r@ == inverted(condition@),
{
    proof {
        reveal_strlit("&&");
        reveal_strlit("||");
    }
    let c = chars_of(condition);
    if contains_exec(&c, &chars_of("||")) {
        string_of(&invert_disjuncts(&c))
    } else if contains_exec(&c, &chars_of("&&")) {
        string_of(&invert_parts(&c, "&&", " || "))
    } else {
        string_of(&invert_simple_chars(&c))
    }
}

/// The characters that comparison operators are made of.
pub open spec fn is_op_char(c: char) -> bool {
    c == '<' || c == '>' || c == '=' || c == '!'
}

/// `s` holds no character of a comparison operator.
pub open spec fn free_of_op_chars(s: Seq<char>) -> bool {
    forall|i: int| 0 <= i < s.len() ==> !is_op_char(#[trigger] s[i])
}

/// One of the six comparison operators.
pub open spec fn is_comparison_op(op: Seq<char>) -> bool {
    ||| op == seq!['>', '=']
    ||| op == seq!['<', '=']
    ||| op == seq!['>']
    ||| op == seq!['<']
    ||| op == seq!['=', '=']
    ||| op == seq!['!', '=']
}

/// The operator that compares the other way round: `>=` and `<`, `<=` and `>`,
/// `==` and `!=`.
pub open spec fn negated_op(op: Seq<char>) -> Seq<char> {
    if op == seq!['>', '='] {
        seq!['<']
    } else if op == seq!['<', '='] {
        seq!['>']
    } else if op == seq!['>'] {
        seq!['<', '=']
    } else if op == seq!['<'] {
        seq!['>', '=']
    } else if op == seq!['=', '='] {
        seq!['!', '=']
    } else {
        seq!['=', '=']
    }
}

proof fn lemma_occurs_in_middle(l: Seq<char>, m: Seq<char>, r: Seq<char>, q: Seq<char>, j: int)
    requires
        free_of_op_chars(l),
        free_of_op_chars(r),
        q.len() > 0,
        forall|k: int| 0 <= k < q.len() ==> is_op_char(#[trigger] q[k]),
        occurs_at(l + m + r, q, j),
    ensures
        l.len() <= j,
        j + q.len() <= l.len() + m.len(),
        occurs_at(m, q, j - l.len()),
{
    let s = l + m + r;
    lemma_occurs_at_chars(s, q, j);
    assert(s[j + 0] == q[0]);
    assert(is_op_char(q[0]));
    if j < l.len() {
        assert(s[j] == l[j]);
    }
    let e = j + q.len() - 1;
    assert(s[j + (q.len() - 1)] == q[q.len() - 1]);
    assert(is_op_char(q[q.len() - 1]));
    if e >= l.len() + m.len() {
        assert(s[e] == r[e - l.len() - m.len()]);
    }
    let k0 = j - l.len();
    assert forall|k: int| 0 <= k < q.len() implies m.subrange(k0, k0 + q.len())[k] == q[k] by {
        assert(s[j + k] == q[k]);
        assert(s[j + k] == m[k0 + k]);
    }
    assert(m.subrange(k0, k0 + q.len()) =~= q);
}

proof fn lemma_contains_middle(l: Seq<char>, m: Seq<char>, r: Seq<char>, q: Seq<char>)
    requires
        free_of_op_chars(l),
        free_of_op_chars(r),
        q.len() > 0,
        forall|k: int| 0 <= k < q.len() ==> is_op_char(#[trigger] q[k]),
    ensures
        contains(l + m + r, q) == contains(m, q),
{
    let s = l + m + r;
    if contains(s, q) {
        let j = choose|j: int| occurs_at(s, q, j);
        lemma_occurs_in_middle(l, m, r, q, j);
    }
    if contains(m, q) {
        let k = choose|k: int| occurs_at(m, q, k);
        assert(s.subrange(k + l.len(), k + l.len() + q.len()) =~= m.subrange(k, k + q.len()));
        assert(occurs_at(s, q, k + l.len()));
    }
}

proof fn lemma_short_contains(s: Seq<char>, q: Seq<char>)
    requires
        s.len() <= 2,
        q.len() > 0,
    ensures
        contains(s, q) ==> (q.len() <= s.len() && s[0] == q[0] && (q.len() == 2 ==> s[1] == q[1]))
            || (q.len() == 1 && s.len() == 2 && s[1] == q[0]),
{
    if contains(s, q) {
        let k = choose|k: int| occurs_at(s, q, k);
        lemma_occurs_at_chars(s, q, k);
        assert(s[k + 0] == q[0]);
        if q.len() == 2 {
            assert(s[k + 1] == q[1]);
        }
    }
}

/// `q` occurs in an operator `op` of one or two characters.
spec fn op_holds(op: Seq<char>, q: Seq<char>) -> bool {
    ||| (q.len() <= op.len() && op[0] == q[0] && (q.len() == 2 ==> op[1] == q[1]))
    ||| (q.len() == 1 && op.len() == 2 && op[1] == q[0])
}

proof fn lemma_contains_op(l: Seq<char>, op: Seq<char>, r: Seq<char>, q: Seq<char>)
    requires
        free_of_op_chars(l),
        free_of_op_chars(r),
        is_comparison_op(op),
        is_comparison_op(q),
    ensures
        contains(l + op + r, q) == op_holds(op, q),
{
    assert forall|k: int| 0 <= k < q.len() implies is_op_char(#[trigger] q[k]) by {}
    lemma_contains_middle(l, op, r, q);
    lemma_short_contains(op, q);
    if op_holds(op, q) {
        if q.len() <= op.len() && op[0] == q[0] && (q.len() == 2 ==> op[1] == q[1]) {
            assert(op.subrange(0, q.len() as int) =~= q);
            assert(occurs_at(op, q, 0));
        } else {
            assert(op.subrange(1, 2) =~= q);
            assert(occurs_at(op, q, 1));
        }
    }
}

/// Of a comparison whose operands hold no operator characters, the negation
/// puts the opposite operator in place of its operator.
pub proof fn lemma_inverted_simple_comparison(l: Seq<char>, op: Seq<char>, r: Seq<char>)
    requires
        free_of_op_chars(l),
        free_of_op_chars(r),
        is_comparison_op(op),
    ensures
        inverted_simple(l + op + r) == l + negated_op(op) + r,
{
    reveal_strlit(">=");
    reveal_strlit("<=");
    reveal_strlit(">");
    reveal_strlit("<");
    reveal_strlit("==");
    reveal_strlit("!=");
    let ge = seq!['>', '='];
    let le = seq!['<', '='];
    let gt = seq!['>'];
    let lt = seq!['<'];
    let eq = seq!['=', '='];
    let ne = seq!['!', '='];
    assert(">="@ =~= ge);
    assert("<="@ =~= le);
    assert(">"@ =~= gt);
    assert("<"@ =~= lt);
    assert("=="@ =~= eq);
    assert("!="@ =~= ne);
    let s = l + op + r;
    assert(is_comparison_op(ge) && is_comparison_op(le) && is_comparison_op(gt));
    assert(is_comparison_op(lt) && is_comparison_op(eq) && is_comparison_op(ne));
    lemma_contains_op(l, op, r, ge);
    lemma_contains_op(l, op, r, le);
    lemma_contains_op(l, op, r, gt);
    lemma_contains_op(l, op, r, lt);
    lemma_contains_op(l, op, r, eq);
    lemma_contains_op(l, op, r, ne);
    assert forall|j: int| j != l.len() implies !#[trigger] occurs_at(s, op, j) by {
        if occurs_at(s, op, j) {
            assert forall|k: int| 0 <= k < op.len() implies is_op_char(#[trigger] op[k]) by {}
            lemma_occurs_in_middle(l, op, r, op, j);
        }
    }
    lemma_replace_single(l, op, r, negated_op(op));
    if op == ge {
        assert(inverted_simple(s) == replace(s, ge, lt));
    } else if op == le {
        assert(!op_holds(op, ge));
        assert(inverted_simple(s) == replace(s, le, gt));
    } else if op == gt {
        assert(!op_holds(op, ge) && !op_holds(op, le));
        assert(inverted_simple(s) == replace(s, gt, le));
    } else if op == lt {
        assert(!op_holds(op, ge) && !op_holds(op, le) && !op_holds(op, gt));
        assert(inverted_simple(s) == replace(s, lt, ge));
    } else if op == eq {
        assert(!op_holds(op, ge) && !op_holds(op, le) && !op_holds(op, gt) && !op_holds(op, lt));
        assert(inverted_simple(s) == replace(s, eq, ne));
    } else {
        assert(!op_holds(op, ge) && !op_holds(op, le) && !op_holds(op, gt) && !op_holds(op, lt)
            && !op_holds(op, eq));
        assert(inverted_simple(s) == replace(s, ne, eq));
    }
}

/// Negating a comparison twice gives it back, where its operands hold no
/// operator characters.
pub proof fn lemma_invert_simple_twice(l: Seq<char>, op: Seq<char>, r: Seq<char>)
    requires
        free_of_op_chars(l),
        free_of_op_chars(r),
        is_comparison_op(op),
    ensures
        inverted_simple(inverted_simple(l + op + r)) == l + op + r,
{
    lemma_inverted_simple_comparison(l, op, r);
    let ge = seq!['>', '='];
    let le = seq!['<', '='];
    let gt = seq!['>'];
    let lt = seq!['<'];
    let eq = seq!['=', '='];
    let ne = seq!['!', '='];
    assert(ge[0] != le[0] && ge[0] != eq[0] && ge[0] != ne[0] && le[0] != eq[0] && le[0]
        != ne[0] && eq[0] != ne[0] && gt[0] != lt[0]);
    assert(ge != le && ge != eq && ge != ne && le != eq && le != ne && eq != ne && gt != lt);
    assert(is_comparison_op(negated_op(op)));
    lemma_inverted_simple_comparison(l, negated_op(op), r);
    assert(negated_op(negated_op(op)) == op);
}

proof fn lemma_free_of_pair(s: Seq<char>, d: char)
    requires
        free_of(s, d),
    ensures
        !contains(s, seq![d, d]),
{
    if contains(s, seq![d, d]) {
        let j = choose|j: int| occurs_at(s, seq![d, d], j);
        lemma_occurs_at_chars(s, seq![d, d], j);
        assert(s[j + 0] == d);
    }
}

/// The item at `n` of a list joined with ` cc ` is followed by `cc`.
proof fn lemma_join_holds_pair(ps: Seq<Seq<char>>, c: char)
    requires
        ps.len() >= 2,
    ensures
        contains(join(ps, spaced(seq![c, c])), seq![c, c]),
{
    let p = seq![c, c];
    let sep = spaced(p);
    lemma_join_first(ps, sep);
    let s = join(ps, sep);
    let n: int = (ps[0].len() + 1) as int;
    assert(s =~= ps[0] + sep + join(ps.drop_first(), sep));
    assert(s.subrange(n, n + 2) =~= p);
    assert(occurs_at(s, p, n));
}

/// Inverting a conjunction of two or more trimmed conditions, none of which
/// holds `&&` or `||`, gives the disjunction of their negations.
pub proof fn lemma_invert_conjunction(ps: Seq<Seq<char>>)
    requires
        ps.len() >= 2,
        forall|i: int| 0 <= i < ps.len() ==> trim(#[trigger] ps[i]) == ps[i],
        forall|i: int| 0 <= i < ps.len() ==> !contains(#[trigger] ps[i], "&&"@),
        forall|i: int| 0 <= i < ps.len() ==> !contains(#[trigger] ps[i], "||"@),
    ensures
        inverted(join(ps, " && "@)) == join(
            ps.map_values(|p: Seq<char>| inverted_simple(p)),
            " || "@,
        ),
{
    reveal_strlit("&&");
    reveal_strlit("||");
    reveal_strlit(" && ");
    let amp = seq!['&', '&'];
    let bar = seq!['|', '|'];
    assert("&&"@ =~= amp);
    assert("||"@ =~= bar);
    assert(" && "@ =~= spaced(amp));
    let c = join(ps, spaced(amp));
    lemma_join_free(ps, spaced(amp), '|');
    lemma_join_holds_pair(ps, '&');
    assert(Seq::<char>::empty() + c =~= c);
    lemma_split_join(Seq::empty(), ps, '&');
    lemma_padded_pieces_trim(Seq::empty(), ps);
    assert(split(c, amp).map_values(|p: Seq<char>| inverted_simple(trim(p))) =~= ps.map_values(
        |p: Seq<char>| inverted_simple(p),
    ));
}

/// Inverting a disjunction of two or more trimmed conditions, none of which
/// holds `&&` or `||`, gives the conjunction of their negations.
pub proof fn lemma_invert_disjunction(ps: Seq<Seq<char>>)
    requires
        ps.len() >= 2,
        forall|i: int| 0 <= i < ps.len() ==> trim(#[trigger] ps[i]) == ps[i],
        forall|i: int| 0 <= i < ps.len() ==> !contains(#[trigger] ps[i], "&&"@),
        forall|i: int| 0 <= i < ps.len() ==> !contains(#[trigger] ps[i], "||"@),
    ensures
        inverted(join(ps, " || "@)) == join(
            ps.map_values(|p: Seq<char>| inverted_simple(p)),
            " && "@,
        ),
{
    reveal_strlit("&&");
    reveal_strlit("||");
    reveal_strlit(" || ");
    let amp = seq!['&', '&'];
    let bar = seq!['|', '|'];
    assert("&&"@ =~= amp);
    assert("||"@ =~= bar);
    assert(" || "@ =~= spaced(bar));
    let c = join(ps, spaced(bar));
    lemma_join_holds_pair(ps, '|');
    assert(Seq::<char>::empty() + c =~= c);
    lemma_split_join(Seq::empty(), ps, '|');
    lemma_padded_pieces_trim(Seq::empty(), ps);
    assert forall|i: int| 0 <= i < ps.len() implies inverted_conjunction(#[trigger] ps[i])
        == inverted_simple(ps[i]) by {
        assert(!contains(ps[i], "&&"@));
    }
    assert(split(c, bar).map_values(|p: Seq<char>| inverted_conjunction(trim(p)))
        =~= ps.map_values(|p: Seq<char>| inverted_simple(p)));
}

/// An operand of a comparison: no operator character, no `&` and no `|`.
pub open spec fn plain_operand(s: Seq<char>) -> bool {
    free_of_op_chars(s) && free_of(s, '&') && free_of(s, '|')
}

/// The comparisons `ls[i] ops[i] rs[i]`.
pub open spec fn comparisons(ls: Seq<Seq<char>>, ops: Seq<Seq<char>>, rs: Seq<Seq<char>>) -> Seq<
    Seq<char>,
> {
    Seq::new(ls.len(), |i: int| ls[i] + ops[i] + rs[i])
}

/// Each `ls[i] ops[i] rs[i]` is a comparison of plain operands that begins and
/// ends with a character other than whitespace.
pub open spec fn plain_comparisons(
    ls: Seq<Seq<char>>,
    ops: Seq<Seq<char>>,
    rs: Seq<Seq<char>>,
) -> bool {
    &&& ops.len() == ls.len()
    &&& rs.len() == ls.len()
    &&& forall|i: int|
        0 <= i < ls.len() ==> {
            &&& plain_operand(#[trigger] ls[i])
            &&& plain_operand(rs[i])
            &&& is_comparison_op(ops[i])
            &&& ls[i].len() > 0
            &&& !is_ws(ls[i][0])
            &&& rs[i].len() > 0
            &&& !is_ws(rs[i].last())
        }
}

proof fn lemma_comparison_plain(l: Seq<char>, op: Seq<char>, r: Seq<char>)
    requires
        plain_operand(l),
        plain_operand(r),
        is_comparison_op(op),
        l.len() > 0,
        !is_ws(l[0]),
        r.len() > 0,
        !is_ws(r.last()),
    ensures
        trim(l + op + r) == l + op + r,
        !contains(l + op + r, "&&"@),
        !contains(l + op + r, "||"@),
{
    reveal_strlit("&&");
    reveal_strlit("||");
    let s = l + op + r;
    assert(s[0] == l[0]);
    assert(s.last() == r.last());
    assert(crate::text::trim_start(s) == s);
    assert(crate::text::trim_end(s) == s);
    assert forall|k: int| 0 <= k < op.len() implies is_op_char(#[trigger] op[k]) by {}
    assert forall|k: int| 0 <= k < s.len() implies s[k] != '&' && s[k] != '|' by {
        if k < l.len() {
            assert(s[k] == l[k]);
        } else if k < l.len() + op.len() {
            assert(s[k] == op[k - l.len()]);
            assert(is_op_char(op[k - l.len()]));
        } else {
            assert(s[k] == r[k - l.len() - op.len()]);
        }
    }
    lemma_free_of_pair(s, '&');
    lemma_free_of_pair(s, '|');
    assert("&&"@ =~= seq!['&', '&']);
    assert("||"@ =~= seq!['|', '|']);
}

proof fn lemma_comparisons_plain(ls: Seq<Seq<char>>, ops: Seq<Seq<char>>, rs: Seq<Seq<char>>)
    requires
        plain_comparisons(ls, ops, rs),
    ensures
        forall|i: int|
            0 <= i < ls.len() ==> trim(#[trigger] comparisons(ls, ops, rs)[i]) == comparisons(
                ls,
                ops,
                rs,
            )[i],
        forall|i: int|
            0 <= i < ls.len() ==> !contains(#[trigger] comparisons(ls, ops, rs)[i], "&&"@),
        forall|i: int|
            0 <= i < ls.len() ==> !contains(#[trigger] comparisons(ls, ops, rs)[i], "||"@),
{
    assert forall|i: int| 0 <= i < ls.len() implies {
        &&& trim(#[trigger] comparisons(ls, ops, rs)[i]) == comparisons(ls, ops, rs)[i]
        &&& !contains(comparisons(ls, ops, rs)[i], "&&"@)
        &&& !contains(comparisons(ls, ops, rs)[i], "||"@)
    } by {
        assert(plain_operand(ls[i]));
        lemma_comparison_plain(ls[i], ops[i], rs[i]);
    }
}

/// The comparisons with each operator turned the other way round.
pub open spec fn negated_ops(ops: Seq<Seq<char>>) -> Seq<Seq<char>> {
    ops.map_values(|op: Seq<char>| negated_op(op))
}

proof fn lemma_negate_comparisons(ls: Seq<Seq<char>>, ops: Seq<Seq<char>>, rs: Seq<Seq<char>>)
    requires
        plain_comparisons(ls, ops, rs),
    ensures
        plain_comparisons(ls, negated_ops(ops), rs),
        negated_ops(negated_ops(ops)) == ops,
        comparisons(ls, ops, rs).map_values(|p: Seq<char>| inverted_simple(p)) == comparisons(
            ls,
            negated_ops(ops),
            rs,
        ),
{
    let ge = seq!['>', '='];
    let le = seq!['<', '='];
    let gt = seq!['>'];
    let lt = seq!['<'];
    let eq = seq!['=', '='];
    let ne = seq!['!', '='];
    assert(ge[0] != le[0] && ge[0] != eq[0] && ge[0] != ne[0] && le[0] != eq[0] && le[0]
        != ne[0] && eq[0] != ne[0] && gt[0] != lt[0]);
    assert(ge != le && ge != eq && ge != ne && le != eq && le != ne && eq != ne && gt != lt);
    let nops = negated_ops(ops);
    assert forall|i: int| 0 <= i < ls.len() implies {
        &&& is_comparison_op(#[trigger] nops[i])
        &&& negated_op(nops[i]) == ops[i]
    } by {
        assert(plain_operand(ls[i]));
        assert(is_comparison_op(ops[i]));
        assert(nops[i] == negated_op(ops[i]));
    }
    assert forall|i: int| 0 <= i < ls.len() implies {
        &&& plain_operand(#[trigger] ls[i])
        &&& plain_operand(rs[i])
        &&& is_comparison_op(nops[i])
        &&& ls[i].len() > 0
        &&& !is_ws(ls[i][0])
        &&& rs[i].len() > 0
        &&& !is_ws(rs[i].last())
    } by {
        assert(is_comparison_op(nops[i]));
    }
    assert(negated_ops(nops) =~= ops);
    assert forall|i: int| 0 <= i < ls.len() implies inverted_simple(
        #[trigger] comparisons(ls, ops, rs)[i],
    ) == comparisons(ls, nops, rs)[i] by {
        assert(plain_operand(ls[i]));
        lemma_inverted_simple_comparison(ls[i], ops[i], rs[i]);
    }
    assert(comparisons(ls, ops, rs).map_values(|p: Seq<char>| inverted_simple(p)) =~= comparisons(
        ls,
        nops,
        rs,
    ));
}

/// Inverting twice a conjunction of two or more comparisons of plain operands,
/// each beginning and ending with a character other than whitespace, gives the
/// conjunction back.
pub proof fn lemma_invert_conjunction_twice(
    ls: Seq<Seq<char>>,
    ops: Seq<Seq<char>>,
    rs: Seq<Seq<char>>,
)
    requires
        ls.len() >= 2,
        plain_comparisons(ls, ops, rs),
    ensures
        inverted(inverted(join(comparisons(ls, ops, rs), " && "@))) == join(
            comparisons(ls, ops, rs),
            " && "@,
        ),
{
    let nops = negated_ops(ops);
    lemma_negate_comparisons(ls, ops, rs);
    lemma_negate_comparisons(ls, nops, rs);
    lemma_comparisons_plain(ls, ops, rs);
    lemma_comparisons_plain(ls, nops, rs);
    lemma_invert_conjunction(comparisons(ls, ops, rs));
    lemma_invert_disjunction(comparisons(ls, nops, rs));
}

/// Inverting twice a disjunction of two or more comparisons of plain operands,
/// each beginning and ending with a character other than whitespace, gives the
/// disjunction back.
pub proof fn lemma_invert_disjunction_twice(
    ls: Seq<Seq<char>>,
    ops: Seq<Seq<char>>,
    rs: Seq<Seq<char>>,
)
    requires
        ls.len() >= 2,
        plain_comparisons(ls, ops, rs),
    ensures
        inverted(inverted(join(comparisons(ls, ops, rs), " || "@))) == join(
            comparisons(ls, ops, rs),
            " || "@,
        ),
{
    let nops = negated_ops(ops);
    lemma_negate_comparisons(ls, ops, rs);
    lemma_negate_comparisons(ls, nops, rs);
    lemma_comparisons_plain(ls, ops, rs);
    lemma_comparisons_plain(ls, nops, rs);
    lemma_invert_disjunction(comparisons(ls, ops, rs));
    lemma_invert_conjunction(comparisons(ls, nops, rs));
}

/// A condition with no `&&` and no `||`, trimmed and not empty.
pub open spec fn plain_condition(a: Seq<char>) -> bool {
    &&& a.len() > 0
    &&& trim(a) == a
    &&& !contains(a, "&&"@)
    &&& !contains(a, "||"@)
}

/// The negation of a conjunction of plain conditions: of one, its negation; of
/// more, the negations joined by `||`, in parentheses.
pub open spec fn negated_conjunction(parts: Seq<Seq<char>>) -> Seq<char> {
    if parts.len() == 1 {
        inverted_simple(parts[0])
    } else {
        "("@ + join(parts.map_values(|p: Seq<char>| inverted_simple(p)), " || "@) + ")"@
    }
}

/// The parts joined by a separator, where each part is trimmed and not empty,
/// are trimmed and not empty.
proof fn lemma_join_trimmed(ps: Seq<Seq<char>>, sep: Seq<char>)
    requires
        ps.len() >= 1,
        forall|i: int| 0 <= i < ps.len() ==> #[trigger] ps[i].len() > 0 && trim(ps[i]) == ps[i],
    ensures
        join(ps, sep).len() > 0,
        trim(join(ps, sep)) == join(ps, sep),
{
    let j = join(ps, sep);
    assert(ps[0].len() > 0 && trim(ps[0]) == ps[0]);
    let last = ps[ps.len() - 1];
    assert(last.len() > 0 && trim(last) == last);
    lemma_trim_shape(ps[0]);
    lemma_trim_shape(last);
    if ps.len() >= 2 {
        lemma_join_first(ps, sep);
        assert(j[0] == ps[0][0]);
        assert(j == join(ps.drop_last(), sep) + sep + ps.last());
        assert(j.last() == last.last());
    }
    assert(!crate::text::is_ws(j[0]));
    assert(!crate::text::is_ws(j.last()));
    assert(crate::text::trim_start(j) == j);
    assert(crate::text::trim_end(j) == j);
}

/// Inverting a disjunction of two or more conjunctions of plain conditions
/// (`&&` binding tighter than `||`) gives, by De Morgan's laws, the conjunction
/// of the negated conjunctions.
pub proof fn lemma_invert_mixed(cs: Seq<Seq<Seq<char>>>)
    requires
        cs.len() >= 2,
        forall|i: int| 0 <= i < cs.len() ==> #[trigger] cs[i].len() >= 1,
        forall|i: int, j: int|
            0 <= i < cs.len() && 0 <= j < cs[i].len() ==> plain_condition(#[trigger] cs[i][j]),
    ensures
        inverted(join(cs.map_values(|parts: Seq<Seq<char>>| join(parts, " && "@)), " || "@))
            == join(
            cs.map_values(|parts: Seq<Seq<char>>| negated_conjunction(parts)),
            " && "@,
        ),
{
    reveal_strlit("&&");
    reveal_strlit("||");
    reveal_strlit(" && ");
    reveal_strlit(" || ");
    let amp = seq!['&', '&'];
    let bar = seq!['|', '|'];
    assert("&&"@ =~= amp);
    assert("||"@ =~= bar);
    assert(" && "@ =~= spaced(amp));
    assert(" || "@ =~= spaced(bar));
    let ds = cs.map_values(|parts: Seq<Seq<char>>| join(parts, " && "@));
    assert forall|i: int| 0 <= i < ds.len() implies {
        &&& trim(#[trigger] ds[i]) == ds[i]
        &&& !contains(ds[i], bar)
        &&& inverted_conjunction(ds[i]) == negated_conjunction(cs[i])
    } by {
        let parts = cs[i];
        assert(parts.len() >= 1);
        assert forall|j: int| 0 <= j < parts.len() implies #[trigger] parts[j].len() > 0 && trim(
            parts[j],
        ) == parts[j] && !contains(parts[j], amp) && !contains(parts[j], bar) by {
            assert(plain_condition(cs[i][j]));
        }
        lemma_join_trimmed(parts, spaced(amp));
        lemma_join_free(parts, spaced(amp), '|');
        if parts.len() == 1 {
            assert(ds[i] == parts[0]);
        } else {
            lemma_invert_conjunction(parts);
            lemma_join_holds_pair(parts, '&');
        }
    }
    let c = join(ds, spaced(bar));
    lemma_join_holds_pair(ds, '|');
    assert(Seq::<char>::empty() + c =~= c);
    lemma_split_join(Seq::empty(), ds, '|');
    lemma_padded_pieces_trim(Seq::empty(), ds);
    assert(split(c, bar).map_values(|p: Seq<char>| inverted_conjunction(trim(p))) =~= cs.map_values(
        |parts: Seq<Seq<char>>| negated_conjunction(parts),
    ));
}

} // verus!
