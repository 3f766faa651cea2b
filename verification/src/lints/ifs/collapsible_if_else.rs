//! `else { if .. }` where `else if ..` says the same.
use vstd::prelude::*;

use crate::diagnostics::{diag, diag_views, push_diagnostic, DiagView, PluginDiagnostic, Severity};
use crate::semantic::{Arenas, Expr, ExprBlock, ExprIf, Statement};
use crate::syntax::{allows, is_allowed};

verus! {

broadcast use vstd::seq::Seq::add_empty_right;

pub const COLLAPSIBLE_IF_ELSE: &'static str = "Consider using else if instead of else { if ... }";

pub const LINT_NAME: &'static str = "collapsible_if_else";

/// The block holds only an `if`: as its one statement with no tail, or as its
/// tail.
pub open spec fn only_statement_is_if(arenas: Arenas, b: ExprBlock) -> bool {
    if b.statements@.len() == 1 && b.tail is None {
        match arenas.statements@[b.statements@[0] as int] {
            Statement::Expr(x) => arenas.exprs@[x as int] is If,
            _ => false,
        }
    } else {
        match b.tail {
            Some(t) => arenas.exprs@[t as int] is If,
            None => false,
        }
    }
}

/// Whether the block holds only an `if`.
pub fn is_only_statement_if(block_expr: &ExprBlock, arenas: &Arenas) -> (r: bool)
    requires
        arenas.refs_below(Expr::Block(*block_expr), arenas.exprs@.len() as int),
    ensures
        r == only_statement_is_if(*arenas, *block_expr),
{
    if block_expr.statements.len() == 1 && block_expr.tail.is_none() {
        assert(0 <= block_expr.statements@[0] < arenas.statements@.len());
        match &arenas.statements[block_expr.statements[0]] {
            Statement::Expr(x) => matches!(arenas.exprs[*x], Expr::If(_)),
            _ => false,
        }
    } else {
        match block_expr.tail {
            Some(tail) => matches!(arenas.exprs[tail], Expr::If(_)),
            None => false,
        }
    }
}

/// The `if` has an `else` block that holds only an `if`.
pub open spec fn is_collapsible_else(arenas: Arenas, e: ExprIf) -> bool {
    match e.else_block {
        Some(b) => match arenas.exprs@[b as int] {
            Expr::Block(block) => only_statement_is_if(arenas, block),
            _ => false,
        },
        None => false,
    }
}

/// Reports `else { if .. }`, unless an `#[allow(collapsible_if_else)]` stands
/// on an ancestor.
pub fn check_collapsible_if_else(
    expr_if: &ExprIf,
    arenas: &Arenas,
    diagnostics: &mut Vec<PluginDiagnostic>,
)
    requires
        arenas.wf(),
        arenas.fits(Expr::If(*expr_if)),
    ensures
        diag_views(final(diagnostics)@) == diag_views(old(diagnostics)@) + if !allows(
            expr_if.node,
            LINT_NAME@,
        ) && is_collapsible_else(*arenas, *expr_if) {
            seq![diag(expr_if.node.ptr.id, COLLAPSIBLE_IF_ELSE@, Severity::Warning)]
        } else {
            Seq::<DiagView>::empty()
        },
{
    let ghost old_views = diag_views(diagnostics@);
    if is_allowed(&expr_if.node, LINT_NAME) {
        return ;
    }
    let else_block = match expr_if.else_block {
        Some(b) => b,
        None => {
            return ;
        },
    };
    proof {
        assert(arenas.expr_wf(else_block as int));
    }
    let block_expr = match &arenas.exprs[else_block] {
        Expr::Block(b) => b,
        _ => {
            return ;
        },
    };
    if is_only_statement_if(block_expr, arenas) {
        push_diagnostic(diagnostics, expr_if.node.ptr.id, COLLAPSIBLE_IF_ELSE, Severity::Warning);
        assert(diag_views(diagnostics@) =~= old_views + seq![
            diag(expr_if.node.ptr.id, COLLAPSIBLE_IF_ELSE@, Severity::Warning),
        ]);
    } else {
    }
}

} // verus!
