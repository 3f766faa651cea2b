//! Operations whose result is always zero, reported as an error.
use vstd::prelude::*;

use crate::diagnostics::{diag, new_diagnostic, DiagView, PluginDiagnostic, Severity};
use crate::erasing_op::is_zero_literal_spec;
use crate::syntax::{BinaryOperator, Expr, ExprBinary};
use crate::text::str_eq;

verus! {

pub const ERASE_OP: &'static str = "This operation will always result in zero and can be simplified.";

/// What `check_expr` reports for `expr`.
pub open spec fn operator_diagnostic(expr: ExprBinary) -> Option<DiagView> {
    if (is_zero_literal_spec(*expr.lhs) || is_zero_literal_spec(*expr.rhs)) && (expr.op
        == BinaryOperator::Mul || expr.op == BinaryOperator::Div || expr.op
        == BinaryOperator::And) {
        Some(diag(expr.node.ptr.id, ERASE_OP@, Severity::Error))
    } else {
        None
    }
}

/// An error where one operand of a multiplication, division or bitwise and is
/// the literal `0`.
pub fn check_expr(expr: &ExprBinary) -> (r: Option<PluginDiagnostic>)
    ensures
        r matches Some(d) ==> operator_diagnostic(*expr) == Some(d@),
        r is None ==> operator_diagnostic(*expr) is None,
{
    if is_zero_literal(&expr.lhs) || is_zero_literal(&expr.rhs) {
        match expr.op {
            BinaryOperator::Mul | BinaryOperator::Div | BinaryOperator::And => {
                return Some(new_diagnostic(expr.node.ptr.id, ERASE_OP, Severity::Error));
            },
            _ => {},
        }
    }
    None
}

/// Whether `expr` is the literal `0`.
pub fn is_zero_literal(expr: &Expr) -> (r: bool)
    ensures
        r == is_zero_literal_spec(*expr),
{
    match expr {
        Expr::Literal(lit) => str_eq(lit.text_without_trivia.as_str(), "0"),
        _ => false,
    }
}

} // verus!
