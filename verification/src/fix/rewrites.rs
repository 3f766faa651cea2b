//! The rewrites of the `Fixer`, one per lint that has a fix.
use vstd::prelude::*;

use crate::fix::helper::{
    block_lines,
    else_clause_text,
    invert_condition,
    inverted,
    process_block,
    process_else_clause,
};
use crate::fix::{fix_view, indent_checked, indent_level, indent_level_exec, indent_within, Fixer};
use crate::lints::bool_comparison::{fixed_text_for_comparison, generate_fixed_text_for_comparison};
use crate::lints::double_comparison::{
    determine_simplified_operator,
    flip_binary_operator,
    flipped_binary,
    operator_to_replace,
    simplified_operator,
};
use crate::lints::single_match::{expr_is_unit, is_expr_unit};
use crate::syntax::{
    BlockOrIf,
    BinaryOperator,
    ConditionKind,
    Expr,
    ExprBinary,
    ExprIf,
    ExprLoop,
    ExprMatch,
    MatchArm,
    NodeRef,
    OptionElseClause,
    Pattern,
    Statement,
    StatementKind,
    SyntaxNode,
};
use crate::text::{append, chars_of, ends_with, starts_with, str_eq, leading_ws, leading_ws_exec, replace, replace_exec, string_of, trim, trim_exec};

verus! {

/// The pattern of a destructuring `match` and the arm whose expression becomes
/// the body of the `if let`.
pub open spec fn destruct_choice(m: ExprMatch) -> Option<(Pattern, int)> {
    let p0 = m.arms@[0].patterns@[0];
    let p1 = m.arms@[1].patterns@[0];
    match (p0, p1) {
        (Pattern::Underscore(_), Pattern::Enum(_)) => Some((p1, 1)),
        (Pattern::Enum(_), Pattern::Underscore(_)) => Some((p0, 0)),
        (Pattern::Underscore(_), Pattern::Struct(_)) => Some((p1, 1)),
        (Pattern::Struct(_), Pattern::Underscore(_)) => Some((p0, 0)),
        (Pattern::Enum(_), Pattern::Enum(_)) => if expr_is_unit(m.arms@[1].expression) {
            Some((p0, 0))
        } else {
            Some((p1, 1))
        },
        _ => None,
    }
}

/// A `match` that the destructuring fix can rewrite: two arms with patterns of
/// which one is `_` and the other an enum or struct pattern, or both enum patterns.
pub open spec fn destruct_match_input(m: ExprMatch) -> bool {
    &&& m.arms@.len() >= 2
    &&& m.arms@[0].patterns@.len() > 0
    &&& m.arms@[1].patterns@.len() > 0
    &&& destruct_choice(m) is Some
}

/// The `if let` that a destructuring `match` becomes.
pub open spec fn destruct_match_fix(m: ExprMatch) -> Option<(NodeRef, Seq<char>)> {
    let (pattern, k) = destruct_choice(m)->0;
    let node = m.node;
    let indent = leading_ws(node.text@);
    let text = pattern.spec_node().leading_trivia@ + indent + "if let "@
        + pattern.spec_node().text_without_trivia@ + " = "@
        + m.expr.spec_node().text_without_trivia@ + " {\n"@
        + m.arms@[k].expression.spec_node().text_without_trivia@ + "\n}"@;
    match indent_within(text, indent_level(node.text@)) {
        Some(t) => Some((node.ptr, t)),
        None => None,
    }
}

fn pattern_node(p: &Pattern) -> (r: &SyntaxNode)
    ensures
        *r == p.spec_node(),
{
    match p {
        Pattern::Underscore(n) => n,
        Pattern::Enum(e) => &e.node,
        Pattern::Struct(n) => n,
        Pattern::Other(n) => n,
    }
}

fn text_of(s: &String) -> (r: Vec<char>)
    ensures
        r@ == s@,
{
    chars_of(s.as_str())
}

/// The text of a list of statements: theirs, trivia included, one after the
/// other.
pub open spec fn statements_text(statements: Seq<Statement>) -> Seq<char>
    decreases statements.len(),
{
    if statements.len() == 0 {
        Seq::empty()
    } else {
        statements_text(statements.drop_last()) + statements.last().node.text@
    }
}

fn statements_text_exec(statements: &Vec<Statement>) -> (r: Vec<char>)
    ensures
        r@ == statements_text(statements@),
{
    let mut out: Vec<char> = Vec::new();
    let mut i: usize = 0;
    while i < statements.len()
        invariant
            i <= statements@.len(),
            out@ == statements_text(statements@.take(i as int)),
        decreases statements@.len() - i,
    {
        append(&mut out, &text_of(&statements[i].node.text));
        assert(statements@.take(i + 1).drop_last() =~= statements@.take(i as int));
        i = i + 1;
    }
    assert(statements@.take(statements@.len() as int) =~= statements@);
    out
}

/// The element name and the body of the arm that binds the element, from the
/// last arm whose pattern is an enum pattern with an inner pattern.
pub open spec fn element_arm(arms: Seq<MatchArm>) -> Option<(Seq<char>, Seq<char>)>
    decreases arms.len(),
{
    if arms.len() == 0 {
        None
    } else {
        let arm = arms.last();
        match arm.patterns@[0] {
            Pattern::Enum(e) => match e.inner {
                Some(var) => Some(
                    (
                        var.text_without_trivia@,
                        match arm.expression {
                            Expr::Block(b) => statements_text(b.statements@),
                            _ => arm.expression.spec_node().text@,
                        },
                    ),
                ),
                None => element_arm(arms.drop_last()),
            },
            _ => element_arm(arms.drop_last()),
        }
    }
}

/// The match that a `loop` over `pop_front` begins with.
pub open spec fn pop_front_match(l: ExprLoop) -> ExprMatch {
    match l.body.statements@[0].kind {
        StatementKind::Expr(Expr::Match(m)) => *m,
        _ => arbitrary(),
    }
}

/// The span that a `pop_front` match iterates over: the first argument of the
/// call or the receiver of the method call.
pub open spec fn span_name(m: ExprMatch) -> Seq<char> {
    match *m.expr {
        Expr::FunctionCall(f) => f.arguments@[0].arg_clause.text_without_trivia@,
        Expr::Binary(b) => b.lhs.spec_node().text_without_trivia@,
        _ => Seq::empty(),
    }
}

/// A `loop` that the `for` fix can rewrite: its first statement is a match on a
/// call with an argument or on a method call, and each arm has a pattern.
pub open spec fn loop_match_pop_front_input(l: ExprLoop) -> bool {
    &&& l.body.statements@.len() > 0
    &&& l.body.statements@[0].kind matches StatementKind::Expr(Expr::Match(m))
    &&& match *pop_front_match(l).expr {
        Expr::FunctionCall(f) => f.arguments@.len() > 0,
        Expr::Binary(_) => true,
        _ => false,
    }
    &&& forall|k: int|
        0 <= k < pop_front_match(l).arms@.len() ==> #[trigger] pop_front_match(l).arms@[k].patterns@.len() > 0
}

/// The `for` loop that a `loop` over `pop_front` becomes.
pub open spec fn loop_match_pop_front_fix(l: ExprLoop) -> Option<(NodeRef, Seq<char>)> {
    let m = pop_front_match(l);
    let indent = leading_ws(l.node.text@);
    let trivia = l.node.leading_trivia@;
    let trivia_line = if trivia.len() == 0 {
        trivia
    } else {
        indent + trivia + "\n"@
    };
    let (elt_name, some_arm) = match element_arm(m.arms@) {
        Some(x) => x,
        None => (Seq::empty(), Seq::empty()),
    };
    let text = trivia_line + "for "@ + elt_name + " in "@ + span_name(m) + " {\n"@ + some_arm
        + "\n};\n"@;
    match indent_within(text, indent_level(l.node.text@)) {
        Some(t) => Some((l.node.ptr, t)),
        None => None,
    }
}

/// The expression inside all its outer parentheses.
pub open spec fn strip_parens(e: Expr) -> Expr
    decreases e,
{
    match e {
        Expr::Parenthesized(p) => strip_parens(*p.expr),
        _ => e,
    }
}

fn strip_parens_exec(e: &Expr) -> (r: &Expr)
    ensures
        *r == strip_parens(*e),
    decreases e,
{
    match e {
        Expr::Parenthesized(p) => strip_parens_exec(&p.expr),
        _ => e,
    }
}

/// The expression without its extra parentheses.
pub open spec fn double_parens_fix(e: Expr) -> Option<(NodeRef, Seq<char>)> {
    match indent_within(
        strip_parens(e).spec_node().text_without_trivia@,
        indent_level(e.spec_node().text@),
    ) {
        Some(t) => Some((e.spec_node().ptr, t)),
        None => None,
    }
}

/// The text of an optional `else` clause, empty where there is none.
pub open spec fn else_text(c: OptionElseClause) -> Seq<char> {
    match c {
        OptionElseClause::ElseClause(e) => e.node.text@,
        OptionElseClause::Empty => Seq::empty(),
    }
}

fn else_text_exec(c: &OptionElseClause) -> (r: Vec<char>)
    ensures
        r@ == else_text(*c),
{
    match c {
        OptionElseClause::ElseClause(e) => text_of(&e.node.text),
        OptionElseClause::Empty => Vec::new(),
    }
}

/// `else { if .. }` rewritten as `else if ..`, where the `else` block begins
/// with an `if`.
pub open spec fn collapsible_if_else_fix(e: ExprIf) -> Option<(NodeRef, Seq<char>)> {
    match e.else_clause {
        OptionElseClause::ElseClause(c) => match c.else_block_or_if {
            BlockOrIf::Block(b) => if b.statements@.len() > 0 {
                match b.statements@[0].kind {
                    StatementKind::Expr(Expr::If(inner)) => Some(
                        (
                            c.node.ptr,
                            leading_ws(c.node.text@) + "else if "@ + inner.condition.node.text@
                                + " "@ + inner.if_block.node.text@ + " "@ + else_text(
                                inner.else_clause,
                            ),
                        ),
                    ),
                    _ => None,
                }
            } else {
                None
            },
            _ => None,
        },
        _ => None,
    }
}

/// The operator of the right comparison as read with the operands in the order
/// of the left one, where both compare the same two operands (by their text
/// without trivia); `None` where they do not.
pub open spec fn aligned_rhs_op(l: ExprBinary, r: ExprBinary) -> Option<BinaryOperator> {
    let a = l.lhs.spec_node().text_without_trivia@;
    let b = l.rhs.spec_node().text_without_trivia@;
    let c = r.lhs.spec_node().text_without_trivia@;
    let d = r.rhs.spec_node().text_without_trivia@;
    if a == c && b == d {
        Some(r.op)
    } else if a == d && b == c {
        Some(flipped_binary(r.op))
    } else {
        None
    }
}

/// The comparison that a double comparison of the same two operands says the
/// same as: the left comparison with its operator replaced by the simplified
/// one, the right comparison read with the operands in the left one's order.
pub open spec fn double_comparison_fix(e: Expr) -> Option<(NodeRef, Seq<char>)> {
    match e {
        Expr::Binary(b) => match (*b.lhs, *b.rhs) {
            (Expr::Binary(lb), Expr::Binary(rb)) => match aligned_rhs_op(lb, rb) {
                Some(r) => match simplified_operator(lb.op, r, b.op) {
                    Some(s) => match lb.op {
                        BinaryOperator::EqEq => Some((b.node.ptr, replace(b.lhs.spec_node().text@, "=="@, s))),
                        BinaryOperator::GT => Some((b.node.ptr, replace(b.lhs.spec_node().text@, ">"@, s))),
                        BinaryOperator::LT => Some((b.node.ptr, replace(b.lhs.spec_node().text@, "<"@, s))),
                        BinaryOperator::GE => Some((b.node.ptr, replace(b.lhs.spec_node().text@, ">="@, s))),
                        BinaryOperator::LE => Some((b.node.ptr, replace(b.lhs.spec_node().text@, "<="@, s))),
                        _ => None,
                    },
                    None => None,
                },
                None => None,
            },
            _ => None,
        },
        _ => None,
    }
}

impl Fixer {
    /// Rewrites a destructuring `match` with one arm that does nothing as an
    /// `if let`, re-indented as the `match` was; `None` where the text is too
    /// long to index.
    pub fn fix_destruct_match(&self, match_expr: &ExprMatch) -> (r: Option<(NodeRef, String)>)
        requires
            destruct_match_input(*match_expr),
        ensures
            fix_view(r) == destruct_match_fix(*match_expr),
    {
        let first_arm = &match_expr.arms[0];
        let second_arm = &match_expr.arms[1];
        let (pattern, first_expr) = match (&first_arm.patterns[0], &second_arm.patterns[0]) {
            (Pattern::Underscore(_), Pattern::Enum(_)) => (&second_arm.patterns[0], second_arm),
            (Pattern::Enum(_), Pattern::Underscore(_)) => (&first_arm.patterns[0], first_arm),
            (Pattern::Underscore(_), Pattern::Struct(_)) => (&second_arm.patterns[0], second_arm),
            (Pattern::Struct(_), Pattern::Underscore(_)) => (&first_arm.patterns[0], first_arm),
            _ => {
                if is_expr_unit(&second_arm.expression) {
                    (&first_arm.patterns[0], first_arm)
                } else {
                    (&second_arm.patterns[0], second_arm)
                }
            },
        };
        let ghost choice = destruct_choice(*match_expr)->0;
        let ghost k: int = choice.1;
        assert(*first_expr == match_expr.arms@[k]);
        let node = &match_expr.node;
        let pnode = pattern_node(pattern);
        let node_text = text_of(&node.text);
        let indent = leading_ws_exec(&node_text);
        let mut text = text_of(&pnode.leading_trivia);
        append(&mut text, &indent);
        append(&mut text, &chars_of("if let "));
        append(&mut text, &text_of(&pnode.text_without_trivia));
        append(&mut text, &chars_of(" = "));
        append(&mut text, &text_of(&match_expr.expr.node().text_without_trivia));
        append(&mut text, &chars_of(" {\n"));
        append(&mut text, &text_of(&first_expr.expression.node().text_without_trivia));
        append(&mut text, &chars_of("\n}"));
        match indent_checked(&text, indent_level_exec(&node_text)) {
            Some(t) => Some((node.ptr, t)),
            None => None,
        }
    }

    /// Rewrites `break ();` as `break;` in the node's text.
    pub fn fix_break_unit(&self, node: &SyntaxNode) -> (r: Option<(NodeRef, String)>)
        ensures
            fix_view(r) == Some((node.ptr, replace(node.text@, "break ();"@, "break;"@))),
    {
        proof {
            reveal_strlit("break ();");
        }
        let t = replace_exec(&text_of(&node.text), &chars_of("break ();"), &chars_of("break;"));
        Some((node.ptr, string_of(&t)))
    }

    /// Rewrites a comparison with a boolean literal as the bare operand or its
    /// negation, such as `some_bool == false` as `!some_bool`.
    pub fn fix_bool_comparison(&self, node: &ExprBinary) -> (r: Option<(NodeRef, String)>)
        ensures
            fix_view(r) == Some(
                (
                    node.node.ptr,
                    fixed_text_for_comparison(
                        node.lhs.spec_node().text@,
                        node.rhs.spec_node().text@,
                        *node,
                    ),
                ),
            ),
    {
        let result = generate_fixed_text_for_comparison(
            node.lhs.node().text.as_str(),
            node.rhs.node().text.as_str(),
            node,
        );
        Some((node.node.ptr, result))
    }

    /// Rewrites a `loop` that matches on `pop_front` of a span as a `for` loop
    /// over the span, with the body of the arm that binds the element; `None`
    /// where the text is too long to index.
    pub fn fix_loop_match_pop_front(&self, expr_loop: &ExprLoop) -> (r: Option<(NodeRef, String)>)
        requires
            loop_match_pop_front_input(*expr_loop),
        ensures
            fix_view(r) == loop_match_pop_front_fix(*expr_loop),
    {
        let expr_match = match &expr_loop.body.statements[0].kind {
            StatementKind::Expr(Expr::Match(m)) => m,
            _ => {
                proof {
                    assert(false);
                }
                return None;
            },
        };
        assert(**expr_match == pop_front_match(*expr_loop));
        let span_name = match &*expr_match.expr {
            Expr::FunctionCall(func_call) => text_of(&func_call.arguments[0].arg_clause.text_without_trivia),
            Expr::Binary(dot_call) => text_of(&dot_call.lhs.node().text_without_trivia),
            _ => {
                proof {
                    assert(false);
                }
                return None;
            },
        };
        let mut elt_name: Vec<char> = Vec::new();
        let mut some_arm: Vec<char> = Vec::new();
        let ghost arms = expr_match.arms@;
        let mut found = false;
        let mut i: usize = 0;
        while i < expr_match.arms.len()
            invariant
                arms == expr_match.arms@,
                i <= arms.len(),
                forall|k: int| 0 <= k < arms.len() ==> #[trigger] arms[k].patterns@.len() > 0,
                found ==> element_arm(arms.take(i as int)) == Some((elt_name@, some_arm@)),
                !found ==> element_arm(arms.take(i as int)) is None && elt_name@.len() == 0
                    && some_arm@.len() == 0,
            decreases arms.len() - i,
        {
            let arm = &expr_match.arms[i];
            assert(arms.take(i + 1).drop_last() =~= arms.take(i as int));
            assert(arms.take(i + 1).last() == arm);
            assert(arm.patterns@.len() > 0);
            if let Pattern::Enum(enum_pattern) = &arm.patterns[0] {
                if let Some(var) = &enum_pattern.inner {
                    elt_name = text_of(&var.text_without_trivia);
                    some_arm = match &arm.expression {
                        Expr::Block(block_expr) => statements_text_exec(&block_expr.statements),
                        _ => text_of(&arm.expression.node().text),
                    };
                    found = true;
                }
            }
            i = i + 1;
        }
        assert(arms.take(arms.len() as int) =~= arms);
        let node_text = text_of(&expr_loop.node.text);
        let indent = leading_ws_exec(&node_text);
        let trivia = text_of(&expr_loop.node.leading_trivia);
        let trivia_line = if trivia.len() == 0 {
            trivia
        } else {
            let mut t = indent.clone();
            append(&mut t, &trivia);
            append(&mut t, &chars_of("\n"));
            t
        };
        let mut text = trivia_line;
        append(&mut text, &chars_of("for "));
        append(&mut text, &elt_name);
        append(&mut text, &chars_of(" in "));
        append(&mut text, &span_name);
        append(&mut text, &chars_of(" {\n"));
        append(&mut text, &some_arm);
        append(&mut text, &chars_of("\n};\n"));
        match indent_checked(&text, indent_level_exec(&node_text)) {
            Some(t) => Some((expr_loop.node.ptr, t)),
            None => None,
        }
    }

    /// Removes the extra parentheses around an expression, re-indented as it
    /// was; `None` where the text is too long to index.
    pub fn fix_double_parens(&self, expr: &Expr) -> (r: Option<(NodeRef, String)>)
        ensures
            fix_view(r) == double_parens_fix(*expr),
    {
        let inner = strip_parens_exec(expr);
        let node = expr.node();
        let text = text_of(&inner.node().text_without_trivia);
        match indent_checked(&text, indent_level_exec(&text_of(&node.text))) {
            Some(t) => Some((node.ptr, t)),
            None => None,
        }
    }

    /// Rewrites `else { if .. }` as `else if ..` where the `else` block begins
    /// with an `if`; otherwise no fix.
    pub fn fix_collapsible_if_else(&self, if_expr: &ExprIf) -> (r: Option<(NodeRef, String)>)
        ensures
            fix_view(r) == collapsible_if_else_fix(*if_expr),
    {
        let else_clause = match &if_expr.else_clause {
            OptionElseClause::ElseClause(c) => c,
            _ => {
                return None;
            },
        };
        if let BlockOrIf::Block(block_expr) = &else_clause.else_block_or_if {
            if block_expr.statements.len() > 0 {
                if let StatementKind::Expr(Expr::If(inner)) = &block_expr.statements[0].kind {
                    let mut text = leading_ws_exec(&text_of(&else_clause.node.text));
                    append(&mut text, &chars_of("else if "));
                    append(&mut text, &text_of(&inner.condition.node.text));
                    append(&mut text, &chars_of(" "));
                    append(&mut text, &text_of(&inner.if_block.node.text));
                    append(&mut text, &chars_of(" "));
                    append(&mut text, &else_text_exec(&inner.else_clause));
                    return Some((else_clause.node.ptr, string_of(&text)));
                }
            }
        }
        None
    }

    /// Rewrites a double comparison of the same two operands as the one
    /// comparison it says the same as, such as `a > b || a == b` as `a >= b`
    /// (and `a < b || b == a` alike); otherwise no fix.
    pub fn fix_double_comparison(&self, expr: &Expr) -> (r: Option<(NodeRef, String)>)
        ensures
            fix_view(r) == double_comparison_fix(*expr),
    {
        if let Expr::Binary(binary_op) = expr {
            if let (Expr::Binary(lb), Expr::Binary(rb)) = (&*binary_op.lhs, &*binary_op.rhs) {
                let a = lb.lhs.node().text_without_trivia.as_str();
                let b = lb.rhs.node().text_without_trivia.as_str();
                let c = rb.lhs.node().text_without_trivia.as_str();
                let d = rb.rhs.node().text_without_trivia.as_str();
                let rhs_op = if str_eq(a, c) && str_eq(b, d) {
                    rb.op
                } else if str_eq(a, d) && str_eq(b, c) {
                    flip_binary_operator(rb.op)
                } else {
                    return None;
                };
                let lhs_op = lb.op;
                if let Some(simplified_op) = determine_simplified_operator(
                    &lhs_op,
                    &rhs_op,
                    &binary_op.op,
                ) {
                    if let Some(operator) = operator_to_replace(lhs_op) {
                        proof {
                            reveal_strlit("==");
                            reveal_strlit(">");
                            reveal_strlit("<");
                            reveal_strlit(">=");
                            reveal_strlit("<=");
                        }
                        let lhs_text = replace_exec(
                            &text_of(&binary_op.lhs.node().text),
                            &chars_of(operator),
                            &chars_of(simplified_op),
                        );
                        return Some((binary_op.node.ptr, string_of(&lhs_text)));
                    }
                }
            }
        }
        None
    }
}

/// Collapsing `else { if c { .. } .. }` keeps all of the inner `if`: the
/// replacement of the `else` clause begins with its indentation, `else if` and
/// the inner condition, holds the inner block after it, and ends with the inner
/// `if`'s own `else` clause (a space where it has none).
pub proof fn lemma_collapsible_if_else_keeps_inner_if(e: ExprIf)
    ensures
        e.else_clause matches OptionElseClause::ElseClause(c) ==> (c.else_block_or_if matches BlockOrIf::Block(
            b,
        ) ==> (b.statements@.len() > 0 ==> (b.statements@[0].kind matches StatementKind::Expr(
            Expr::If(inner),
        ) ==> (collapsible_if_else_fix(e) matches Some((n, t)) && n == c.node.ptr && starts_with(
            t,
            leading_ws(c.node.text@) + "else if "@ + inner.condition.node.text@ + " "@
                + inner.if_block.node.text@,
        ) && ends_with(t, " "@ + else_text(inner.else_clause)))))),
{
    match e.else_clause {
        OptionElseClause::ElseClause(c) => match c.else_block_or_if {
            BlockOrIf::Block(b) => if b.statements@.len() > 0 {
                match b.statements@[0].kind {
                    StatementKind::Expr(Expr::If(inner)) => {
                        let head = leading_ws(c.node.text@) + "else if "@ + inner.condition.node.text@
                            + " "@ + inner.if_block.node.text@;
                        let tail = " "@ + else_text(inner.else_clause);
                        let t = head + tail;
                        assert(collapsible_if_else_fix(e) == Some((c.node.ptr, t)));
                        assert(t.subrange(0, head.len() as int) =~= head);
                        assert(t.subrange(t.len() - tail.len(), t.len() as int) =~= tail);
                    },
                    _ => {},
                }
            },
            _ => {},
        },
        _ => {},
    }
}

} // verus!
