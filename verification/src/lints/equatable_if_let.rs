//! `if let` against a value that `==` compares.
use vstd::prelude::*;

use crate::diagnostics::{diag, diag_views, push_diagnostic, PluginDiagnostic, Severity};
use crate::syntax::{ConditionKind, Expr, ExprIf};

verus! {

pub const EQUATABLE_IF_LET: &'static str =
    "`if let` pattern used for equatable value. Consider using a simple comparison `==` instead";

/// A literal, a boolean, a string or a path.
pub open spec fn is_simple_equality_expr_spec(expr: Expr) -> bool {
    expr is Literal || expr is False || expr is True || expr is ShortString || expr is String
        || expr is Path
}

fn is_simple_equality_expr(expr: &Expr) -> (r: bool)
    ensures
        r == is_simple_equality_expr_spec(*expr),
{
    match expr {
        Expr::Literal(_) | Expr::False(_) | Expr::True(_) | Expr::ShortString(_) | Expr::String(
            _,
        ) | Expr::Path(_) => true,
        _ => false,
    }
}

/// An `if let` whose matched expression is simple.
pub open spec fn is_equatable_if_let(expr: ExprIf) -> bool {
    expr.condition.kind matches ConditionKind::Let(e, _) && is_simple_equality_expr_spec(e)
}

/// Warns on `if let` with a simple matched expression.
pub fn check_equatable_if_let(expr: &ExprIf, diagnostics: &mut Vec<PluginDiagnostic>)
    ensures
        diag_views(final(diagnostics)@) == if is_equatable_if_let(*expr) {
            diag_views(old(diagnostics)@).push(
                diag(expr.node.ptr.id, EQUATABLE_IF_LET@, Severity::Warning),
            )
        } else {
            diag_views(old(diagnostics)@)
        },
{
    match &expr.condition.kind {
        ConditionKind::Let(e, _) => {
            if is_simple_equality_expr(e) {
                push_diagnostic(diagnostics, expr.node.ptr.id, EQUATABLE_IF_LET, Severity::Warning);
            }
        },
        _ => {},
    }
}

} // verus!
