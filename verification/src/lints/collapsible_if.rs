//! An `if` whose block holds only another `if`, neither with an `else`.
use vstd::prelude::*;

use crate::diagnostics::{diag, diag_views, push_diagnostic, PluginDiagnostic, Severity};
use crate::syntax::{Expr, ExprIf, OptionElseClause, StatementKind};

verus! {

pub const COLLAPSIBLE_IF: &'static str =
    "Each `if`-statement adds one level of nesting, which makes code look more complex than it really is.";

/// The `if` block holds exactly one statement, an `if` expression, and neither
/// `if` has an `else` clause.
pub open spec fn is_collapsible_if(expr_if: ExprIf) -> bool {
    let st = expr_if.if_block.statements@;
    &&& st.len() == 1
    &&& (st[0].kind matches StatementKind::Expr(e) && (e matches Expr::If(inner)
        && inner.else_clause is Empty))
    &&& expr_if.else_clause is Empty
}

/// Warns on an `if` that can merge with the `if` inside it.
pub fn check_collapsible_if(expr_if: &ExprIf, diagnostics: &mut Vec<PluginDiagnostic>)
    ensures
        diag_views(final(diagnostics)@) == if is_collapsible_if(*expr_if) {
            diag_views(old(diagnostics)@).push(
                diag(expr_if.node.ptr.id, COLLAPSIBLE_IF@, Severity::Warning),
            )
        } else {
            diag_views(old(diagnostics)@)
        },
{
    let statements = &expr_if.if_block.statements;
    if statements.len() != 1 {
        return;
    }
    if let StatementKind::Expr(Expr::If(inner_if_expr)) = &statements[0].kind {
        match &inner_if_expr.else_clause {
            OptionElseClause::Empty => {},
            OptionElseClause::ElseClause(_) => {
                return;
            },
        }
        match &expr_if.else_clause {
            OptionElseClause::Empty => {},
            OptionElseClause::ElseClause(_) => {
                return;
            },
        }
        push_diagnostic(diagnostics, expr_if.node.ptr.id, COLLAPSIBLE_IF, Severity::Warning);
    }
}

} // verus!
