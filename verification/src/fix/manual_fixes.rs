//! The rewrites of the `Fixer` for `if let`, the `loop`s that become `while`,
//! the hand-written `Option` and `Result` methods, and integer comparisons.
use vstd::prelude::*;

use crate::fix::helper::{
    block_lines,
    else_clause_text,
    invert_condition,
    inverted,
    process_block,
    process_else_clause,
};
use crate::fix::{fix_view, indent_checked, indent_within, Fixer};
use crate::syntax::{
    BlockOrIf,
    ConditionKind,
    Expr,
    ExprBinary,
    ExprFunctionCall,
    ExprIf,
    ExprLoop,
    ExprMatch,
    NodeRef,
    OptionElseClause,
    Statement,
    StatementKind,
};
use crate::text::{
    append,
    chars_of,
    ends_with,
    leading_ws,
    leading_ws_exec,
    starts_with,
    string_of,
    trim,
    trim_exec,
};

verus! {

fn text_of(s: &String) -> (r: Vec<char>)
    ensures
        r@ == s@,
{
    chars_of(s.as_str())
}

/// An `if let` condition.
pub open spec fn is_if_let(e: ExprIf) -> bool {
    e.condition.kind is Let
}

/// `if x == pattern` for `if let pattern = x`.
pub open spec fn equatable_if_let_fix(e: ExprIf) -> (NodeRef, Seq<char>) {
    match e.condition.kind {
        ConditionKind::Let(x, patterns) => (
            e.node.ptr,
            e.if_kw.text@ + x.spec_node().text_without_trivia@ + " == "@
                + patterns.text_without_trivia@ + " "@ + e.if_block.node.text@,
        ),
        _ => (e.node.ptr, Seq::empty()),
    }
}

/// The expression that a `match` or an `if let` inspects.
pub open spec fn inspected(e: Expr) -> Expr {
    match e {
        Expr::Match(m) => *m.expr,
        Expr::If(i) => match i.condition.kind {
            ConditionKind::Let(x, _) => x,
            _ => e,
        },
        _ => e,
    }
}

/// A `match`, or an `if let`.
pub open spec fn is_match_or_if_let(e: Expr) -> bool {
    match e {
        Expr::Match(_) => true,
        Expr::If(i) => is_if_let(*i),
        _ => false,
    }
}

fn inspected_exec(e: &Expr) -> (r: &Expr)
    requires
        is_match_or_if_let(*e),
    ensures
        *r == inspected(*e),
{
    match e {
        Expr::Match(m) => &m.expr,
        Expr::If(i) => match &i.condition.kind {
            ConditionKind::Let(x, _) => x,
            _ => e,
        },
        _ => e,
    }
}

/// The lines of statements, each indented by `indent` and four spaces.
pub open spec fn statement_lines(statements: Seq<Statement>, indent: Seq<char>) -> Seq<char>
    decreases statements.len(),
{
    if statements.len() == 0 {
        Seq::empty()
    } else {
        statement_lines(statements.drop_last(), indent) + indent + "    "@
            + statements.last().node.text_without_trivia@ + "\n"@
    }
}

/// The `while` loop that a `loop` beginning with `if cond { break; }` becomes:
/// the inverted condition, the `if`'s block and `else` clause without `break`s,
/// and the other statements of the loop.
pub open spec fn loop_break_fix(l: ExprLoop) -> (NodeRef, Seq<char>) {
    let indent = leading_ws(l.node.text@);
    let stmts = l.body.statements@;
    let (condition, head) = if stmts.len() > 0 {
        match stmts[0].kind {
            StatementKind::Expr(Expr::If(i)) => (
                inverted(i.condition.node.text_without_trivia@),
                block_lines(i.if_block.statements@, indent) + match i.else_clause {
                    OptionElseClause::ElseClause(c) => else_clause_text(c, indent),
                    OptionElseClause::Empty => Seq::empty(),
                },
            ),
            _ => (Seq::empty(), Seq::empty()),
        }
    } else {
        (Seq::empty(), Seq::empty())
    };
    let rest = if stmts.len() > 0 {
        statement_lines(stmts.drop_first(), indent)
    } else {
        Seq::empty()
    };
    (l.node.ptr, indent + "while "@ + condition + " {\n"@ + head + rest + indent + "}\n"@)
}

/// The name of the inspected value and the first argument of the call in the
/// arm at `arm_index` of a two-arm `match`.
pub open spec fn match_var_name_and_err(m: ExprMatch, arm_index: int) -> (Seq<char>, Seq<char>) {
    (
        m.expr.spec_node().text_without_trivia@,
        match m.arms@[arm_index].expression {
            Expr::FunctionCall(f) => f.arguments@[0].node.text_without_trivia@,
            _ => Seq::empty(),
        },
    )
}

/// A two-arm `match` whose arm at `arm_index` calls a function with an argument.
pub open spec fn match_with_err_arm(m: ExprMatch, arm_index: int) -> bool {
    &&& m.arms@.len() == 2
    &&& 0 <= arm_index <= 1
    &&& match m.arms@[arm_index].expression {
        Expr::FunctionCall(f) => f.arguments@.len() > 0,
        _ => false,
    }
}

/// The name of the value that a `match` inspects and the first argument of the
/// call in the arm at `arm_index`.
pub fn expr_match_get_var_name_and_err(expr_match: &ExprMatch, arm_index: usize) -> (r: (
    String,
    String,
))
    requires
        match_with_err_arm(*expr_match, arm_index as int),
    ensures
        (r.0@, r.1@) == match_var_name_and_err(*expr_match, arm_index as int),
{
    let option_var_name = expr_match.expr.node().text_without_trivia.clone();
    match &expr_match.arms[arm_index].expression {
        Expr::FunctionCall(func_call) => {
            let err = func_call.arguments[0].node.text_without_trivia.clone();
            (option_var_name, err)
        },
        _ => {
            proof {
                assert(false);
            }
            (option_var_name, String::new())
        },
    }
}

/// An `if let` with an `else` block that begins with a call with an argument.
pub open spec fn if_let_with_err_else(e: ExprIf) -> bool {
    &&& is_if_let(e)
    &&& match e.else_clause {
        OptionElseClause::ElseClause(c) => match c.else_block_or_if {
            BlockOrIf::Block(b) => b.statements@.len() > 0 && match b.statements@[0].kind {
                StatementKind::Expr(Expr::FunctionCall(f)) => f.arguments@.len() > 0,
                _ => false,
            },
            _ => false,
        },
        _ => false,
    }
}

/// The name of the value that an `if let` inspects and the first argument of
/// the call that its `else` block begins with.
pub open spec fn if_var_name_and_err(e: ExprIf) -> (Seq<char>, Seq<char>) {
    (
        inspected(Expr::If(Box::new(e))).spec_node().text_without_trivia@,
        match e.else_clause {
            OptionElseClause::ElseClause(c) => match c.else_block_or_if {
                BlockOrIf::Block(b) => match b.statements@[0].kind {
                    StatementKind::Expr(Expr::FunctionCall(f)) => f.arguments@[0].node.text_without_trivia@,
                    _ => Seq::empty(),
                },
                _ => Seq::empty(),
            },
            _ => Seq::empty(),
        },
    )
}

/// The name of the value that an `if let` inspects and the first argument of
/// the call that its `else` block begins with.
pub fn expr_if_get_var_name_and_err(expr_if: &ExprIf) -> (r: (String, String))
    requires
        if_let_with_err_else(*expr_if),
    ensures
        (r.0@, r.1@) == if_var_name_and_err(*expr_if),
{
    let option_var_name = match &expr_if.condition.kind {
        ConditionKind::Let(x, _) => x.node().text_without_trivia.clone(),
        _ => String::new(),
    };
    if let OptionElseClause::ElseClause(else_clause) = &expr_if.else_clause {
        if let BlockOrIf::Block(expr_block) = &else_clause.else_block_or_if {
            if let StatementKind::Expr(Expr::FunctionCall(func_call)) = &expr_block.statements[0].kind {
                let err = func_call.arguments[0].node.text_without_trivia.clone();
                return (option_var_name, err);
            }
        }
    }
    proof {
        assert(false);
    }
    (option_var_name, String::new())
}

/// `value.func_name()` for the value that a `match` or an `if let` inspects.
pub open spec fn manual_fix_text(func_name: Seq<char>, node: Expr) -> Seq<char> {
    inspected(node).spec_node().text_without_trivia@ + "."@ + func_name + "()"@
}

/// Rewrites a hand-written method on an `Option` or a `Result` as the call
/// `value.func_name()`.
pub fn fix_manual(func_name: &str, node: &Expr) -> (r: String)
    requires
        is_match_or_if_let(*node),
    ensures
        r@ == manual_fix_text(func_name@, *node),
{
    let mut text = text_of(&inspected_exec(node).node().text_without_trivia);
    append(&mut text, &chars_of("."));
    append(&mut text, &chars_of(func_name));
    append(&mut text, &chars_of("()"));
    string_of(&text)
}

/// A `match` or an `if let` from which a call with an error argument can be
/// read: for a `match`, in the arm at `arm_index`.
pub open spec fn err_call_input(node: Expr, arm_index: int) -> bool {
    match node {
        Expr::Match(m) => match_with_err_arm(*m, arm_index),
        Expr::If(i) => if_let_with_err_else(*i),
        _ => false,
    }
}

/// `value.method(err)` for a `match` (with the error in the arm at
/// `arm_index`) or an `if let`.
pub open spec fn method_with_err_text(node: Expr, arm_index: int, method: Seq<char>) -> Seq<char> {
    let (v, e) = match node {
        Expr::Match(m) => match_var_name_and_err(*m, arm_index),
        Expr::If(i) => if_var_name_and_err(*i),
        _ => (Seq::empty(), Seq::empty()),
    };
    v + "."@ + method + "("@ + e + ")"@
}

fn method_with_err(node: &Expr, arm_index: usize, method: &str) -> (r: String)
    requires
        err_call_input(*node, arm_index as int),
    ensures
        r@ == method_with_err_text(*node, arm_index as int, method@),
{
    let (v, e) = match node {
        Expr::Match(m) => expr_match_get_var_name_and_err(m, arm_index),
        Expr::If(i) => expr_if_get_var_name_and_err(i),
        _ => (String::new(), String::new()),
    };
    let mut text = text_of(&v);
    append(&mut text, &chars_of("."));
    append(&mut text, &chars_of(method));
    append(&mut text, &chars_of("("));
    append(&mut text, &text_of(&e));
    append(&mut text, &chars_of(")"));
    string_of(&text)
}

/// `if (outer) && (inner) { .. }` for an `if` whose block is only an `if`,
/// neither with an `else`, re-indented by the whitespace before `if`; the
/// node's text unchanged for any other `if`.
pub open spec fn collapsible_if_fix(e: ExprIf) -> Option<(NodeRef, Seq<char>)> {
    let stmts = e.if_block.statements@;
    let unchanged = Some((e.node.ptr, e.node.text@));
    if stmts.len() != 1 {
        unchanged
    } else {
        match stmts[0].kind {
            StatementKind::Expr(Expr::If(inner)) => if inner.else_clause is ElseClause
                || e.else_clause is ElseClause {
                unchanged
            } else {
                let text = "if ("@ + e.condition.node.text_without_trivia@ + ") && ("@
                    + inner.condition.node.text_without_trivia@ + ") "@ + inner.if_block.node.text@;
                match indent_within(text, leading_ws(e.if_kw.text@).len() / 4) {
                    Some(t) => Some((e.node.ptr, t)),
                    None => None,
                }
            },
            _ => unchanged,
        }
    }
}

/// `lhs op rhs ` from two texts, trimmed.
pub open spec fn comparison_text(lhs: Seq<char>, op: Seq<char>, rhs: Seq<char>) -> Seq<char> {
    trim(lhs) + " "@ + op + " "@ + trim(rhs) + " "@
}

fn comparison_text_exec(lhs: &String, op: &str, rhs: &String) -> (r: String)
    ensures
        r@ == comparison_text(lhs@, op@, rhs@),
{
    let mut text = trim_exec(&text_of(lhs));
    append(&mut text, &chars_of(" "));
    append(&mut text, &chars_of(op));
    append(&mut text, &chars_of(" "));
    append(&mut text, &trim_exec(&text_of(rhs)));
    append(&mut text, &chars_of(" "));
    string_of(&text)
}

/// The left operand of a binary expression.
pub open spec fn left_of(e: Expr) -> Expr {
    match e {
        Expr::Binary(b) => *b.lhs,
        _ => e,
    }
}

impl Fixer {
    /// Rewrites `if let pattern = x` as `if x == pattern`.
    pub fn fix_equatable_if_let(&self, expr: &ExprIf) -> (r: Option<(NodeRef, String)>)
        requires
            is_if_let(*expr),
        ensures
            fix_view(r) == Some(equatable_if_let_fix(*expr)),
    {
        let mut text = text_of(&expr.if_kw.text);
        if let ConditionKind::Let(x, patterns) = &expr.condition.kind {
            append(&mut text, &text_of(&x.node().text_without_trivia));
            append(&mut text, &chars_of(" == "));
            append(&mut text, &text_of(&patterns.text_without_trivia));
            append(&mut text, &chars_of(" "));
        }
        append(&mut text, &text_of(&expr.if_block.node.text));
        Some((expr.node.ptr, string_of(&text)))
    }

    /// Rewrites a hand-written `unwrap_or_default` as `value.unwrap_or_default()`,
    /// indented as the expression was.
    pub fn fix_manual_unwrap_or_default(&self, expr: &Expr) -> (r: Option<(NodeRef, String)>)
        requires
            is_match_or_if_let(*expr),
        ensures
            fix_view(r) == Some(
                (
                    expr.spec_node().ptr,
                    leading_ws(expr.spec_node().text@) + inspected(
                        *expr,
                    ).spec_node().text_without_trivia@ + ".unwrap_or_default()"@,
                ),
            ),
    {
        let node = expr.node();
        let mut text = leading_ws_exec(&text_of(&node.text));
        append(&mut text, &text_of(&inspected_exec(expr).node().text_without_trivia));
        append(&mut text, &chars_of(".unwrap_or_default()"));
        Some((node.ptr, string_of(&text)))
    }

    /// Rewrites a `loop` that begins with `if cond { break; }` as `while` with the
    /// inverted condition, keeping the rest of the `if` and of the loop.
    pub fn fix_loop_break(&self, loop_expr: &ExprLoop) -> (r: Option<(NodeRef, String)>)
        ensures
            fix_view(r) == Some(loop_break_fix(*loop_expr)),
    {
        let indent = leading_ws_exec(&text_of(&loop_expr.node.text));
        let indent_str = string_of(&indent);
        let mut condition_text: Vec<char> = Vec::new();
        let mut loop_body: Vec<char> = Vec::new();
        let stmts = &loop_expr.body.statements;
        if stmts.len() > 0 {
            if let StatementKind::Expr(Expr::If(if_expr)) = &stmts[0].kind {
                condition_text = text_of(
                    &invert_condition(if_expr.condition.node.text_without_trivia.as_str()),
                );
                append(&mut loop_body, &text_of(&process_block(&if_expr.if_block, indent_str.as_str())));
                if let OptionElseClause::ElseClause(else_clause) = &if_expr.else_clause {
                    append(
                        &mut loop_body,
                        &text_of(&process_else_clause(else_clause, indent_str.as_str())),
                    );
                }
            }
        }
        let ghost head = loop_body@;
        let four = chars_of("    ");
        let newline = chars_of("\n");
        let mut i: usize = 1;
        while i < stmts.len()
            invariant
                1 <= i,
                stmts@.len() > 0 ==> i <= stmts@.len(),
                four@ == "    "@,
                newline@ == "\n"@,
                stmts@.len() > 0 ==> loop_body@ == head + statement_lines(
                    stmts@.subrange(1, i as int),
                    indent@,
                ),
                stmts@.len() == 0 ==> loop_body@ == head,
            decreases stmts@.len() - i,
        {
            append(&mut loop_body, &indent);
            append(&mut loop_body, &four);
            append(&mut loop_body, &text_of(&stmts[i].node.text_without_trivia));
            append(&mut loop_body, &newline);
            assert(stmts@.subrange(1, i + 1).drop_last() =~= stmts@.subrange(1, i as int));
            i = i + 1;
        }
        if stmts.len() > 0 {
            assert(stmts@.subrange(1, stmts@.len() as int) =~= stmts@.drop_first());
        } else {
            assert(loop_body@ =~= head + Seq::<char>::empty());
        }
        let mut text = indent.clone();
        append(&mut text, &chars_of("while "));
        append(&mut text, &condition_text);
        append(&mut text, &chars_of(" {\n"));
        append(&mut text, &loop_body);
        append(&mut text, &indent);
        append(&mut text, &chars_of("}\n"));
        Some((loop_expr.node.ptr, string_of(&text)))
    }

    /// Rewrites a hand-written `ok_or` as `value.ok_or(err)`.
    pub fn fix_manual_ok_or(&self, node: &Expr) -> (r: Option<(NodeRef, String)>)
        requires
            err_call_input(*node, 1),
        ensures
            fix_view(r) == Some((node.spec_node().ptr, method_with_err_text(*node, 1, "ok_or"@))),
    {
        Some((node.node().ptr, method_with_err(node, 1, "ok_or")))
    }

    /// Rewrites a hand-written `is_some` as `value.is_some()`.
    pub fn fix_manual_is_some(&self, node: &Expr) -> (r: Option<(NodeRef, String)>)
        requires
            is_match_or_if_let(*node),
        ensures
            fix_view(r) == Some((node.spec_node().ptr, manual_fix_text("is_some"@, *node))),
    {
        Some((node.node().ptr, fix_manual("is_some", node)))
    }

    /// Rewrites a hand-written `is_none` as `value.is_none()`.
    pub fn fix_manual_is_none(&self, node: &Expr) -> (r: Option<(NodeRef, String)>)
        requires
            is_match_or_if_let(*node),
        ensures
            fix_view(r) == Some((node.spec_node().ptr, manual_fix_text("is_none"@, *node))),
    {
        Some((node.node().ptr, fix_manual("is_none", node)))
    }

    /// Rewrites a hand-written `is_ok` as `value.is_ok()`.
    pub fn fix_manual_is_ok(&self, node: &Expr) -> (r: Option<(NodeRef, String)>)
        requires
            is_match_or_if_let(*node),
        ensures
            fix_view(r) == Some((node.spec_node().ptr, manual_fix_text("is_ok"@, *node))),
    {
        Some((node.node().ptr, fix_manual("is_ok", node)))
    }

    /// Rewrites a hand-written `is_err` as `value.is_err()`.
    pub fn fix_manual_is_err(&self, node: &Expr) -> (r: Option<(NodeRef, String)>)
        requires
            is_match_or_if_let(*node),
        ensures
            fix_view(r) == Some((node.spec_node().ptr, manual_fix_text("is_err"@, *node))),
    {
        Some((node.node().ptr, fix_manual("is_err", node)))
    }

    /// Rewrites a hand-written `ok` as `value.ok()`.
    pub fn fix_manual_ok(&self, node: &Expr) -> (r: Option<(NodeRef, String)>)
        requires
            is_match_or_if_let(*node),
        ensures
            fix_view(r) == Some((node.spec_node().ptr, manual_fix_text("ok"@, *node))),
    {
        Some((node.node().ptr, fix_manual("ok", node)))
    }

    /// Rewrites a hand-written `err` as `value.err()`.
    pub fn fix_manual_err(&self, node: &Expr) -> (r: Option<(NodeRef, String)>)
        requires
            is_match_or_if_let(*node),
        ensures
            fix_view(r) == Some((node.spec_node().ptr, manual_fix_text("err"@, *node))),
    {
        Some((node.node().ptr, fix_manual("err", node)))
    }

    /// Rewrites a hand-written `expect` as `value.expect(err)`.
    pub fn fix_manual_expect(&self, node: &Expr) -> (r: Option<(NodeRef, String)>)
        requires
            err_call_input(*node, 1),
        ensures
            fix_view(r) == Some((node.spec_node().ptr, method_with_err_text(*node, 1, "expect"@))),
    {
        Some((node.node().ptr, method_with_err(node, 1, "expect")))
    }

    /// Rewrites a hand-written `expect_err` as `value.expect_err(err)`, the error
    /// from the first arm of a `match`.
    pub fn fix_manual_expect_err(&self, node: &Expr) -> (r: Option<(NodeRef, String)>)
        requires
            err_call_input(*node, 0),
        ensures
            fix_view(r) == Some(
                (node.spec_node().ptr, method_with_err_text(*node, 0, "expect_err"@)),
            ),
    {
        Some((node.node().ptr, method_with_err(node, 0, "expect_err")))
    }

    /// Collapses an `if` whose block is only another `if` (neither with an
    /// `else`) into `if (outer) && (inner)`; where no such `if` is found, the
    /// node's text unchanged. `None` where the text is too long to index.
    pub fn fix_collapsible_if(&self, expr_if: &ExprIf) -> (r: Option<(NodeRef, String)>)
        ensures
            fix_view(r) == collapsible_if_fix(*expr_if),
    {
        let statements = &expr_if.if_block.statements;
        if statements.len() != 1 {
            return Some((expr_if.node.ptr, expr_if.node.text.clone()));
        }
        if let StatementKind::Expr(Expr::If(inner_if_expr)) = &statements[0].kind {
            if let OptionElseClause::ElseClause(_) = &inner_if_expr.else_clause {
                return Some((expr_if.node.ptr, expr_if.node.text.clone()));
            }
            if let OptionElseClause::ElseClause(_) = &expr_if.else_clause {
                return Some((expr_if.node.ptr, expr_if.node.text.clone()));
            }
            let mut text = chars_of("if (");
            append(&mut text, &text_of(&expr_if.condition.node.text_without_trivia));
            append(&mut text, &chars_of(") && ("));
            append(&mut text, &text_of(&inner_if_expr.condition.node.text_without_trivia));
            append(&mut text, &chars_of(") "));
            append(&mut text, &text_of(&inner_if_expr.if_block.node.text));
            let indent = leading_ws_exec(&text_of(&expr_if.if_kw.text)).len();
            return match indent_checked(&text, indent / 4) {
                Some(t) => Some((expr_if.node.ptr, t)),
                None => None,
            };
        }
        Some((expr_if.node.ptr, expr_if.node.text.clone()))
    }

    /// Rewrites `x >= y + 1` as `x > y`.
    pub fn fix_int_ge_plus_one(&self, node: &ExprBinary) -> (r: Option<(NodeRef, String)>)
        requires
            *node.rhs is Binary,
        ensures
            fix_view(r) == Some(
                (
                    node.node.ptr,
                    comparison_text(
                        node.lhs.spec_node().text@,
                        ">"@,
                        left_of(*node.rhs).spec_node().text@,
                    ),
                ),
            ),
    {
        let rhs = match &*node.rhs {
            Expr::Binary(b) => &b.lhs,
            _ => &node.rhs,
        };
        Some((node.node.ptr, comparison_text_exec(&node.lhs.node().text, ">", &rhs.node().text)))
    }

    /// Rewrites `x - 1 >= y` as `x > y`.
    pub fn fix_int_ge_min_one(&self, node: &ExprBinary) -> (r: Option<(NodeRef, String)>)
        requires
            *node.lhs is Binary,
        ensures
            fix_view(r) == Some(
                (
                    node.node.ptr,
                    comparison_text(
                        left_of(*node.lhs).spec_node().text@,
                        ">"@,
                        node.rhs.spec_node().text@,
                    ),
                ),
            ),
    {
        let lhs = match &*node.lhs {
            Expr::Binary(b) => &b.lhs,
            _ => &node.lhs,
        };
        Some((node.node.ptr, comparison_text_exec(&lhs.node().text, ">", &node.rhs.node().text)))
    }

    /// Rewrites `x + 1 <= y` as `x < y`.
    pub fn fix_int_le_plus_one(&self, node: &ExprBinary) -> (r: Option<(NodeRef, String)>)
        requires
            *node.lhs is Binary,
        ensures
            fix_view(r) == Some(
                (
                    node.node.ptr,
                    comparison_text(
                        left_of(*node.lhs).spec_node().text@,
                        "<"@,
                        node.rhs.spec_node().text@,
                    ),
                ),
            ),
    {
        let lhs = match &*node.lhs {
            Expr::Binary(b) => &b.lhs,
            _ => &node.lhs,
        };
        Some((node.node.ptr, comparison_text_exec(&lhs.node().text, "<", &node.rhs.node().text)))
    }

    /// Rewrites `x <= y - 1` as `x < y`.
    pub fn fix_int_le_min_one(&self, node: &ExprBinary) -> (r: Option<(NodeRef, String)>)
        requires
            *node.rhs is Binary,
        ensures
            fix_view(r) == Some(
                (
                    node.node.ptr,
                    comparison_text(
                        node.lhs.spec_node().text@,
                        "<"@,
                        left_of(*node.rhs).spec_node().text@,
                    ),
                ),
            ),
    {
        let rhs = match &*node.rhs {
            Expr::Binary(b) => &b.lhs,
            _ => &node.rhs,
        };
        Some((node.node.ptr, comparison_text_exec(&node.lhs.node().text, "<", &rhs.node().text)))
    }
}

/// `v.method(a)` begins with `v.method(` and ends with `(a)`.
proof fn lemma_call_text_ends(v: Seq<char>, method: Seq<char>, a: Seq<char>)
    ensures
        starts_with(v + "."@ + method + "("@ + a + ")"@, v + "."@ + method + "("@),
        ends_with(v + "."@ + method + "("@ + a + ")"@, "("@ + a + ")"@),
{
    let head = v + "."@ + method;
    let t = head + "("@ + a + ")"@;
    assert(t =~= (head + "("@) + (a + ")"@));
    assert(t =~= head + ("("@ + a + ")"@));
    assert(t.subrange(0, (head + "("@).len() as int) =~= head + "("@);
    assert(t.subrange(t.len() - ("("@ + a + ")"@).len(), t.len() as int) =~= "("@ + a + ")"@);
}

/// The fix of an `if let` whose `else` block begins with a call `f(a, ..)`
/// passes the error on: it is `v.method(a)`, `v` the value the `if let`
/// inspects and `a` the call's first argument.
pub proof fn lemma_if_let_fix_keeps_err(e: ExprIf, f: ExprFunctionCall, method: Seq<char>, arm_index: int)
    requires
        if_let_with_err_else(e),
        e.else_clause matches OptionElseClause::ElseClause(c) && c.else_block_or_if matches BlockOrIf::Block(
            b,
        ) && b.statements@[0].kind == StatementKind::Expr(Expr::FunctionCall(f)),
    ensures
        if_var_name_and_err(e).1 == f.arguments@[0].node.text_without_trivia@,
        e.condition.kind matches ConditionKind::Let(x, _) && starts_with(
            method_with_err_text(Expr::If(Box::new(e)), arm_index, method),
            x.spec_node().text_without_trivia@ + "."@ + method + "("@,
        ),
        ends_with(
            method_with_err_text(Expr::If(Box::new(e)), arm_index, method),
            "("@ + f.arguments@[0].node.text_without_trivia@ + ")"@,
        ),
{
    let (v, a) = if_var_name_and_err(e);
    lemma_call_text_ends(v, method, a);
}

/// The fix of a two-arm `match` whose arm at `arm_index` is a call `f(a, ..)`
/// passes the error on: it is `v.method(a)`, `v` the matched value.
pub proof fn lemma_match_fix_keeps_err(m: ExprMatch, f: ExprFunctionCall, method: Seq<char>, arm_index: int)
    requires
        match_with_err_arm(m, arm_index),
        m.arms@[arm_index].expression == Expr::FunctionCall(f),
    ensures
        match_var_name_and_err(m, arm_index).1 == f.arguments@[0].node.text_without_trivia@,
        starts_with(
            method_with_err_text(Expr::Match(Box::new(m)), arm_index, method),
            m.expr.spec_node().text_without_trivia@ + "."@ + method + "("@,
        ),
        ends_with(
            method_with_err_text(Expr::Match(Box::new(m)), arm_index, method),
            "("@ + f.arguments@[0].node.text_without_trivia@ + ")"@,
        ),
{
    let (v, a) = match_var_name_and_err(m, arm_index);
    lemma_call_text_ends(v, method, a);
}

/// `a + b` begins with `a` and ends with `b`.
proof fn lemma_concat_ends(a: Seq<char>, b: Seq<char>)
    ensures
        starts_with(a + b, a),
        ends_with(a + b, b),
{
    assert((a + b).subrange(0, a.len() as int) =~= a);
    assert((a + b).subrange((a + b).len() - b.len(), (a + b).len() as int) =~= b);
}

/// The rewrite of `if let p = x { .. }` replaces the whole `if` by one that
/// begins with its `if` keyword and `x == p`, and ends with its own block.
pub proof fn lemma_equatable_if_let_compares(e: ExprIf)
    ensures
        e.condition.kind matches ConditionKind::Let(x, p) ==> ({
            let (n, t) = equatable_if_let_fix(e);
            &&& n == e.node.ptr
            &&& starts_with(
                t,
                e.if_kw.text@ + x.spec_node().text_without_trivia@ + " == "@ + p.text_without_trivia@,
            )
            &&& ends_with(t, " "@ + e.if_block.node.text@)
        }),
{
    match e.condition.kind {
        ConditionKind::Let(x, p) => {
            let head = e.if_kw.text@ + x.spec_node().text_without_trivia@ + " == "@
                + p.text_without_trivia@;
            let tail = " "@ + e.if_block.node.text@;
            assert(equatable_if_let_fix(e).1 =~= head + tail);
            lemma_concat_ends(head, tail);
        },
        _ => {},
    }
}

/// The rewrite of a hand-written method is a call of that method, with no
/// argument, on the value that the `match` or `if let` inspects.
pub proof fn lemma_manual_fix_calls_method(func_name: Seq<char>, node: Expr)
    ensures
        node matches Expr::Match(m) ==> starts_with(
            manual_fix_text(func_name, node),
            m.expr.spec_node().text_without_trivia@ + "."@,
        ),
        node matches Expr::If(i) ==> (i.condition.kind matches ConditionKind::Let(x, _) ==> starts_with(
            manual_fix_text(func_name, node),
            x.spec_node().text_without_trivia@ + "."@,
        )),
        ends_with(manual_fix_text(func_name, node), "."@ + func_name + "()"@),
{
    let v = inspected(node).spec_node().text_without_trivia@;
    assert(manual_fix_text(func_name, node) =~= (v + "."@) + (func_name + "()"@));
    assert(manual_fix_text(func_name, node) =~= v + ("."@ + func_name + "()"@));
    lemma_concat_ends(v + "."@, func_name + "()"@);
    lemma_concat_ends(v, "."@ + func_name + "()"@);
}

} // verus!
