//! A binary expression whose two operands are the same text.
use vstd::prelude::*;

use crate::diagnostics::{diag, diag_views, push_diagnostic, PluginDiagnostic, Severity};
use crate::syntax::{Expr, ExprBinary};
use crate::text::str_eq;

verus! {

pub const REDUNDANT_COMPARISON: &'static str =
    "redundant comparison found. This expression always evaluates to true or false.";

/// The expression is a function, method or struct constructor call.
pub open spec fn is_call(expr: Expr) -> bool {
    expr is FunctionCall || expr is StructCtorCall
}

/// Neither operand is a call, and the two operands have the same text.
pub open spec fn is_redundant_comparison(expr: ExprBinary) -> bool {
    !is_call(*expr.lhs) && !is_call(*expr.rhs) && expr.lhs.spec_node().text_without_trivia@
        == expr.rhs.spec_node().text_without_trivia@
}

/// Warns on a binary expression with the same operand on both sides.
pub fn check_redundant_comparison(expr: &ExprBinary, diagnostics: &mut Vec<PluginDiagnostic>)
    ensures
        diag_views(final(diagnostics)@) == if is_redundant_comparison(*expr) {
            diag_views(old(diagnostics)@).push(
                diag(expr.node.ptr.id, REDUNDANT_COMPARISON@, Severity::Warning),
            )
        } else {
            diag_views(old(diagnostics)@)
        },
{
    let lhs_call = match &*expr.lhs {
        Expr::FunctionCall(_) | Expr::StructCtorCall(_) => true,
        _ => false,
    };
    let rhs_call = match &*expr.rhs {
        Expr::FunctionCall(_) | Expr::StructCtorCall(_) => true,
        _ => false,
    };
    if lhs_call || rhs_call {
        return;
    }
    if str_eq(
        expr.lhs.node().text_without_trivia.as_str(),
        expr.rhs.node().text_without_trivia.as_str(),
    ) {
        push_diagnostic(diagnostics, expr.node.ptr.id, REDUNDANT_COMPARISON, Severity::Warning);
    }
}

} // verus!
