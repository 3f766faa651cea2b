//! Comparisons with a boolean literal.
use vstd::prelude::*;

use crate::diagnostics::{diag, diag_views, push_diagnostic, PluginDiagnostic, Severity};
use crate::syntax::{BinaryOperator, Expr, ExprBinary};
use crate::text::{append, chars_of, seq_eq, string_of, trim, trim_exec};

verus! {

pub const BOOL_COMPARISON: &'static str =
    "Unnecessary comparison with a boolean value. Use the variable directly.";

/// The rewrite of `lhs op rhs` where one side is a boolean literal: the other
/// side, negated where the comparison is `== false` or `!= true`, then a
/// space; the node's own text where neither side is `true` or `false` or the
/// operator is neither `==` nor `!=`.
pub open spec fn fixed_text_for_comparison(lhs: Seq<char>, rhs: Seq<char>, node: ExprBinary) -> Seq<
    char,
> {
    let l = trim(lhs);
    let r = trim(rhs);
    let eq = node.op == BinaryOperator::EqEq;
    let ne = node.op == BinaryOperator::Neq;
    if (l == "false"@ && eq) || (l == "true"@ && ne) {
        "!"@ + r + " "@
    } else if (l == "true"@ && eq) || (l == "false"@ && ne) {
        r + " "@
    } else if (r == "false"@ && eq) || (r == "true"@ && ne) {
        "!"@ + l + " "@
    } else if (r == "true"@ && eq) || (r == "false"@ && ne) {
        l + " "@
    } else {
        node.node.text@
    }
}

/// The text that replaces a comparison with a boolean literal.
pub fn generate_fixed_text_for_comparison(lhs: &str, rhs: &str, node: &ExprBinary) -> (r: String)
    ensures
        r@ == fixed_text_for_comparison(lhs@, rhs@, *node),
{
    let l = trim_exec(&chars_of(lhs));
    let r = trim_exec(&chars_of(rhs));
    let eq = node.op == BinaryOperator::EqEq;
    let ne = node.op == BinaryOperator::Neq;
    let f = chars_of("false");
    let t = chars_of("true");
    let mut out: Vec<char>;
    let lf = seq_eq(&l, &f);
    let lt = seq_eq(&l, &t);
    let rf = seq_eq(&r, &f);
    let rt = seq_eq(&r, &t);
    if (lf && eq) || (lt && ne) {
        out = chars_of("!");
        append(&mut out, &r);
    } else if (lt && eq) || (lf && ne) {
        out = r;
    } else if (rf && eq) || (rt && ne) {
        out = chars_of("!");
        append(&mut out, &l);
    } else if (rt && eq) || (rf && ne) {
        out = l;
    } else {
        return node.node.text.clone();
    }
    append(&mut out, &chars_of(" "));
    string_of(&out)
}

/// The expression is `true` or `false`.
pub open spec fn is_bool_literal(expr: Expr) -> bool {
    expr is True || expr is False
}

/// An `==` or `!=` with a boolean literal on one side.
pub open spec fn is_bool_comparison(node: ExprBinary) -> bool {
    (node.op == BinaryOperator::EqEq || node.op == BinaryOperator::Neq) && (is_bool_literal(
        *node.lhs,
    ) || is_bool_literal(*node.rhs))
}

/// Warns on a comparison with a boolean literal.
pub fn check_bool_comparison(node: &ExprBinary, diagnostics: &mut Vec<PluginDiagnostic>)
    ensures
        diag_views(final(diagnostics)@) == if is_bool_comparison(*node) {
            diag_views(old(diagnostics)@).push(
                diag(node.node.ptr.id, BOOL_COMPARISON@, Severity::Warning),
            )
        } else {
            diag_views(old(diagnostics)@)
        },
{
    let is_comparison_operator = node.op == BinaryOperator::EqEq || node.op == BinaryOperator::Neq;
    let l = match &*node.lhs {
        Expr::True(_) | Expr::False(_) => true,
        _ => false,
    };
    let r = match &*node.rhs {
        Expr::True(_) | Expr::False(_) => true,
        _ => false,
    };
    if is_comparison_operator && (l || r) {
        push_diagnostic(diagnostics, node.node.ptr.id, BOOL_COMPARISON, Severity::Warning);
    }
}

} // verus!
