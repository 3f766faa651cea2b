//! `x >= y + 1` and `x - 1 >= y` where `>` says the same.
use vstd::prelude::*;

use crate::diagnostics::{diag, diag_views, push_diagnostic, PluginDiagnostic, Severity};
use crate::syntax::{BinaryOperator, Expr, ExprBinary};
use crate::text::str_eq;

verus! {

pub const INT_PLUS_ONE: &'static str =
    "Inefficient comparison: Consider using 'x > y' instead of 'x >= y + 1' or similar.";

/// The right operand is `.. + 1`.
pub open spec fn is_int_plus_one_spec(e: ExprBinary) -> bool {
    *e.rhs matches Expr::Binary(r) && (r.op == BinaryOperator::Plus
        && r.rhs.spec_node().text_without_trivia@ == "1"@)
}

/// The left operand is `.. - 1`.
pub open spec fn is_int_minus_one_spec(e: ExprBinary) -> bool {
    *e.lhs matches Expr::Binary(l) && (l.op == BinaryOperator::Minus
        && l.rhs.spec_node().text_without_trivia@ == "1"@)
}

/// A `>=` or `<=` with `+ 1` on the right or `- 1` on the left.
pub open spec fn is_int_plus_one(e: ExprBinary) -> bool {
    (e.op == BinaryOperator::GE || e.op == BinaryOperator::LE) && (is_int_plus_one_spec(e)
        || is_int_minus_one_spec(e))
}

fn is_int_plus_one_expr(expr_binary: &ExprBinary) -> (r: bool)
    ensures
        r == is_int_plus_one_spec(*expr_binary),
{
    if let Expr::Binary(rhs_expr) = &*expr_binary.rhs {
        return rhs_expr.op == BinaryOperator::Plus && str_eq(
            rhs_expr.rhs.node().text_without_trivia.as_str(),
            "1",
        );
    }
    false
}

fn is_int_minus_one_expr(expr_binary: &ExprBinary) -> (r: bool)
    ensures
        r == is_int_minus_one_spec(*expr_binary),
{
    if let Expr::Binary(lhs_expr) = &*expr_binary.lhs {
        return lhs_expr.op == BinaryOperator::Minus && str_eq(
            lhs_expr.rhs.node().text_without_trivia.as_str(),
            "1",
        );
    }
    false
}

/// Warns on a comparison that adds or subtracts one.
pub fn check_int_plus_one(expr_binary: &ExprBinary, diagnostics: &mut Vec<PluginDiagnostic>)
    ensures
        diag_views(final(diagnostics)@) == if is_int_plus_one(*expr_binary) {
            diag_views(old(diagnostics)@).push(
                diag(expr_binary.node.ptr.id, INT_PLUS_ONE@, Severity::Warning),
            )
        } else {
            diag_views(old(diagnostics)@)
        },
{
    if expr_binary.op != BinaryOperator::GE && expr_binary.op != BinaryOperator::LE {
        return;
    }
    if is_int_plus_one_expr(expr_binary) || is_int_minus_one_expr(expr_binary) {
        push_diagnostic(diagnostics, expr_binary.node.ptr.id, INT_PLUS_ONE, Severity::Warning);
    }
}

} // verus!
