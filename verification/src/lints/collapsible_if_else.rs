//! `else { if .. }` where `else if ..` says the same.
use vstd::prelude::*;

use crate::diagnostics::{diag, diag_views, push_diagnostic, PluginDiagnostic, Severity};
use crate::syntax::{BlockOrIf, ElseClause, Expr, ExprBlock, StatementKind};

verus! {

pub const COLLAPSIBLE_IF_ELSE: &'static str = "Consider using else if instead of else { if ... }";

/// The first statement of the block is an `if` expression.
pub open spec fn first_statement_is_if(block_expr: ExprBlock) -> bool {
    let st = block_expr.statements@;
    &&& st.len() > 0
    &&& (st[0].kind matches StatementKind::Expr(e) && e is If)
}

/// Whether the first statement of the block is an `if` expression.
pub fn is_first_statement_if(block_expr: &ExprBlock) -> (r: bool)
    ensures
        r == first_statement_is_if(*block_expr),
{
    if block_expr.statements.len() == 0 {
        return false;
    }
    match &block_expr.statements[0].kind {
        StatementKind::Expr(Expr::If(_)) => true,
        _ => false,
    }
}

/// The `else` clause is a block whose first statement is an `if`.
pub open spec fn is_collapsible_else(else_clause: ElseClause) -> bool {
    else_clause.else_block_or_if matches BlockOrIf::Block(b) && first_statement_is_if(b)
}

/// Warns on `else { if .. }`.
pub fn check_collapsible_if_else(else_clause: &ElseClause, diagnostics: &mut Vec<PluginDiagnostic>)
    ensures
        diag_views(final(diagnostics)@) == if is_collapsible_else(*else_clause) {
            diag_views(old(diagnostics)@).push(
                diag(else_clause.node.ptr.id, COLLAPSIBLE_IF_ELSE@, Severity::Warning),
            )
        } else {
            diag_views(old(diagnostics)@)
        },
{
    if let BlockOrIf::Block(block_expr) = &else_clause.else_block_or_if {
        if is_first_statement_if(block_expr) {
            push_diagnostic(diagnostics, else_clause.node.ptr.id, COLLAPSIBLE_IF_ELSE, Severity::Warning);
        }
    }
}

} // verus!
