//! Operations whose result is always zero.
use vstd::prelude::*;

use crate::diagnostics::{diag, diag_views, push_diagnostic, PluginDiagnostic, Severity};
use crate::erasing_op::is_zero_literal_spec;
use crate::syntax::{BinaryOperator, Expr, ExprBinary};
use crate::text::str_eq;

verus! {

pub const ERASING_OPERATION: &'static str =
    "This operation results in the value being erased (e.g., multiplication by 0). Consider replacing the entire expression with 0.";

/// A multiplication, division or bitwise and with a zero operand.
pub open spec fn is_erasing_operation(node: ExprBinary) -> bool {
    (node.op == BinaryOperator::Mul || node.op == BinaryOperator::Div || node.op
        == BinaryOperator::And) && (is_zero_literal_spec(*node.lhs) || is_zero_literal_spec(
        *node.rhs,
    ))
}

fn is_zero(expr: &Expr) -> (r: bool)
    ensures
        r == is_zero_literal_spec(*expr),
{
    match expr {
        Expr::Literal(lit) => str_eq(lit.text_without_trivia.as_str(), "0"),
        _ => false,
    }
}

/// Warns on an erasing operation.
pub fn check_erasing_operation(node: &ExprBinary, diagnostics: &mut Vec<PluginDiagnostic>)
    ensures
        diag_views(final(diagnostics)@) == if is_erasing_operation(*node) {
            diag_views(old(diagnostics)@).push(
                diag(node.node.ptr.id, ERASING_OPERATION@, Severity::Warning),
            )
        } else {
            diag_views(old(diagnostics)@)
        },
{
    let is_erasing_operation = match node.op {
        BinaryOperator::Mul | BinaryOperator::Div | BinaryOperator::And => is_zero(&node.lhs)
            || is_zero(&node.rhs),
        _ => false,
    };
    if is_erasing_operation {
        push_diagnostic(diagnostics, node.node.ptr.id, ERASING_OPERATION, Severity::Warning);
    }
}

/// An operation is erasing exactly where it multiplies, divides or bitwise-ands
/// with an operand written as the literal `0`.
pub proof fn lemma_erasing_means_zero_operand(node: ExprBinary)
    ensures
        is_erasing_operation(node) == ((node.op == BinaryOperator::Mul || node.op == BinaryOperator::Div
            || node.op == BinaryOperator::And) && ((*node.lhs matches Expr::Literal(l)
            && l.text_without_trivia@ == "0"@) || (*node.rhs matches Expr::Literal(r)
            && r.text_without_trivia@ == "0"@))),
{
}

} // verus!
