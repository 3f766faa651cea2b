//! The check for operations that always give zero.
use vstd::prelude::*;

use crate::diagnostics::{diag, diag_views, new_diagnostic, PluginDiagnostic, Severity};
use crate::syntax::{BinaryOperator, Expr, ExprBinary};
use crate::text::str_eq;

verus! {

pub const ERASE_OP_MESSAGE: &'static str = "This operation will always result in zero and can be simplified.";

/// The check for multiplications and divisions with a zero operand.
#[derive(Debug, Default)]
pub struct EraseOp;

/// The expression is the literal `0`.
pub open spec fn is_zero_literal_spec(expr: Expr) -> bool {
    expr matches Expr::Literal(lit) && lit.text_without_trivia@ == "0"@
}

/// What `EraseOp::check_expr` reports for `expr`.
pub open spec fn erase_op_diagnostic(expr: ExprBinary) -> Option<crate::diagnostics::DiagView> {
    if (is_zero_literal_spec(*expr.lhs) || is_zero_literal_spec(*expr.rhs)) && (expr.op
        == BinaryOperator::Mul || expr.op == BinaryOperator::Div) {
        Some(diag(expr.node.ptr.id, ERASE_OP_MESSAGE@, Severity::Warning))
    } else {
        None
    }
}

impl EraseOp {
    pub fn new() -> (r: Self)
        ensures
            r == EraseOp,
    {
        EraseOp
    }

    /// A warning where one operand of a multiplication or a division is the
    /// literal `0`, else nothing.
    pub fn check_expr(&self, expr: &ExprBinary) -> (r: Option<PluginDiagnostic>)
        ensures
            r matches Some(d) ==> erase_op_diagnostic(*expr) == Some(d@),
            r is None ==> erase_op_diagnostic(*expr) is None,
    {
        if self.is_zero_literal(&expr.lhs) || self.is_zero_literal(&expr.rhs) {
            if expr.op == BinaryOperator::Mul || expr.op == BinaryOperator::Div {
                return Some(new_diagnostic(expr.node.ptr.id, ERASE_OP_MESSAGE, Severity::Warning));
            }
        }
        None
    }

    fn is_zero_literal(&self, expr: &Expr) -> (r: bool)
        ensures
            r == is_zero_literal_spec(*expr),
    {
        match expr {
            Expr::Literal(lit) => str_eq(lit.text_without_trivia.as_str(), "0"),
            _ => false,
        }
    }
}

} // verus!
