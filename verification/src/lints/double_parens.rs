//! `((x))` and `(())`.
use vstd::prelude::*;

use crate::diagnostics::{diag, diag_views, push_diagnostic, PluginDiagnostic, Severity};
use crate::syntax::{allows, is_allowed, Expr};

verus! {

pub const DOUBLE_PARENS: &'static str = "unnecessary double parentheses found. Consider removing them.";

pub const ALLOWED: [&'static str; 1] = [LINT_NAME];

pub const LINT_NAME: &'static str = "double_parens";

/// A parenthesized expression whose inner expression is parenthesized too or a
/// tuple, not allowed by an enclosing `#[allow(double_parens)]`.
pub open spec fn is_double_parens(expr: Expr) -> bool {
    !allows(expr.spec_node(), LINT_NAME@) && (expr matches Expr::Parenthesized(p) && (*p.expr is Parenthesized
        || *p.expr is Tuple))
}

/// Warns on double parentheses.
pub fn check_double_parens(expr: &Expr, diagnostics: &mut Vec<PluginDiagnostic>)
    ensures
        diag_views(final(diagnostics)@) == if is_double_parens(*expr) {
            diag_views(old(diagnostics)@).push(
                diag(expr.spec_node().ptr.id, DOUBLE_PARENS@, Severity::Warning),
            )
        } else {
            diag_views(old(diagnostics)@)
        },
{
    if is_allowed(expr.node(), LINT_NAME) {
        return;
    }
    let is_double_parens = if let Expr::Parenthesized(parenthesized_expr) = expr {
        match &*parenthesized_expr.expr {
            Expr::Parenthesized(_) | Expr::Tuple(_) => true,
            _ => false,
        }
    } else {
        false
    };
    if is_double_parens {
        push_diagnostic(diagnostics, expr.node().ptr.id, DOUBLE_PARENS, Severity::Warning);
    }
}

} // verus!
