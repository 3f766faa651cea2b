//! Comparison against `ArrayTrait::new()`.
use vstd::prelude::*;

use crate::diagnostics::{diag, diag_views, new_diagnostic, push_diagnostic, DiagView, PluginDiagnostic, Severity};
use crate::syntax::{BinaryOperator, Expr};
use crate::text::str_eq;

verus! {

pub const COMPARISON_TO_EMPTY: &'static str =
    "Consider using `.is_empty()` instead of comparing to an empty array.";

/// The expression calls `ArrayTrait::new`.
pub open spec fn is_empty_array_spec(expr: Expr) -> bool {
    expr matches Expr::FunctionCall(f) && f.path.node.text_without_trivia@ == "ArrayTrait::new"@
}

fn is_empty_array(expr: &Expr) -> (r: bool)
    ensures
        r == is_empty_array_spec(*expr),
{
    if let Expr::FunctionCall(func_call) = expr {
        str_eq(func_call.path.node.text_without_trivia.as_str(), "ArrayTrait::new")
    } else {
        false
    }
}

/// A binary expression with the `=` operator and `ArrayTrait::new()` on one side.
pub open spec fn is_comparison_to_empty(expr: Expr) -> bool {
    expr matches Expr::Binary(b) && (b.op == BinaryOperator::Eq && (is_empty_array_spec(*b.lhs)
        || is_empty_array_spec(*b.rhs)))
}

/// Warns where an expression is set against an empty array.
pub fn check_comparison_to_empty(expr: &Expr, diagnostics: &mut Vec<PluginDiagnostic>)
    ensures
        diag_views(final(diagnostics)@) == if is_comparison_to_empty(*expr) {
            diag_views(old(diagnostics)@).push(
                diag(expr.spec_node().ptr.id, COMPARISON_TO_EMPTY@, Severity::Warning),
            )
        } else {
            diag_views(old(diagnostics)@)
        },
{
    if let Expr::Binary(binary_expr) = expr {
        if binary_expr.op == BinaryOperator::Eq {
            if is_empty_array(&binary_expr.lhs) || is_empty_array(&binary_expr.rhs) {
                let d = create_diagnostic(COMPARISON_TO_EMPTY, binary_expr.node.ptr.id, Severity::Warning);
                diagnostics.push(d);
                assert(diag_views(diagnostics@) =~= diag_views(old(diagnostics)@).push(
                    diag(expr.spec_node().ptr.id, COMPARISON_TO_EMPTY@, Severity::Warning)));
            }
        }
    }
}

/// A diagnostic with the given message, node and severity.
pub fn create_diagnostic(message: &str, stable_ptr: u64, severity: Severity) -> (d: PluginDiagnostic)
    ensures
        d@ == diag(stable_ptr, message@, severity),
{
    new_diagnostic(stable_ptr, message, severity)
}

} // verus!
