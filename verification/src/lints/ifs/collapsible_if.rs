//! An `if` whose block holds nothing but another `if`, neither with an `else`.
use vstd::prelude::*;

use crate::diagnostics::{diag, diag_views, push_diagnostic, DiagView, PluginDiagnostic, Severity};
use crate::semantic::{Arenas, Expr, ExprBlock, ExprIf, Statement};
use crate::syntax::{allows, is_allowed};

verus! {

broadcast use vstd::seq::Seq::add_empty_right;

pub const COLLAPSIBLE_IF: &'static str =
    "Each `if`-statement adds one level of nesting, which makes code look more complex than it really is.";

pub const LINT_NAME: &'static str = "collapsible_if";

/// The `if` that is the one statement of a block with no tail, if there is one.
pub open spec fn only_statement_if(arenas: Arenas, b: ExprBlock) -> Option<ExprIf> {
    if b.statements@.len() == 1 && b.tail is None {
        match arenas.statements@[b.statements@[0] as int] {
            Statement::Expr(x) => match arenas.exprs@[x as int] {
                Expr::If(i) => Some(i),
                _ => None,
            },
            _ => None,
        }
    } else {
        None
    }
}

/// The `if` that is the tail of a block, if there is one.
pub open spec fn tail_if(arenas: Arenas, b: ExprBlock) -> Option<ExprIf> {
    match b.tail {
        Some(t) => match arenas.exprs@[t as int] {
            Expr::If(i) => Some(i),
            _ => None,
        },
        None => None,
    }
}

/// The `if`'s block holds only an `if` (as its one statement, or as its tail
/// with no statement), and neither `if` has an `else`.
pub open spec fn is_collapsible(arenas: Arenas, e: ExprIf) -> bool {
    match arenas.exprs@[e.if_block as int] {
        Expr::Block(b) => match only_statement_if(arenas, b) {
            Some(inner) => inner.else_block is None && e.else_block is None,
            None => match tail_if(arenas, b) {
                Some(inner) => e.else_block is None && inner.else_block is None
                    && b.statements@.len() == 0,
                None => false,
            },
        },
        _ => false,
    }
}

/// Reports an `if` whose block holds only another `if`, where neither has an
/// `else`, unless an `#[allow(collapsible_if)]` stands on an ancestor.
pub fn check_collapsible_if(
    expr_if: &ExprIf,
    arenas: &Arenas,
    diagnostics: &mut Vec<PluginDiagnostic>,
)
    requires
        arenas.wf(),
        arenas.fits(Expr::If(*expr_if)),
    ensures
        diag_views(final(diagnostics)@) == diag_views(old(diagnostics)@) + if !allows(
            expr_if.node,
            LINT_NAME@,
        ) && is_collapsible(*arenas, *expr_if) {
            seq![diag(expr_if.node.ptr.id, COLLAPSIBLE_IF@, Severity::Warning)]
        } else {
            Seq::<DiagView>::empty()
        },
{
    let ghost old_views = diag_views(diagnostics@);
    let ghost d = diag(expr_if.node.ptr.id, COLLAPSIBLE_IF@, Severity::Warning);
    if is_allowed(&expr_if.node, LINT_NAME) {
        return ;
    }
    proof {
        assert(arenas.expr_wf(expr_if.if_block as int));
    }
    let if_block = match &arenas.exprs[expr_if.if_block] {
        Expr::Block(b) => b,
        _ => {
            return ;
        },
    };
    if if_block.statements.len() == 1 && if_block.tail.is_none() {
        assert(0 <= if_block.statements@[0] < arenas.statements@.len());
        if let Statement::Expr(inner_expr_stmt) = &arenas.statements[if_block.statements[0]] {
            if let Expr::If(inner_if_expr) = &arenas.exprs[*inner_expr_stmt] {
                if inner_if_expr.else_block.is_some() || expr_if.else_block.is_some() {
                    return ;
                }
                push_diagnostic(diagnostics, expr_if.node.ptr.id, COLLAPSIBLE_IF, Severity::Warning);
                assert(diag_views(diagnostics@) =~= old_views + seq![d]);
                return ;
            }
        }
    }
    assert(only_statement_if(*arenas, *if_block) is None);
    let tail_is_collapsible = match if_block.tail {
        Some(tail) => match &arenas.exprs[tail] {
            Expr::If(inner_if_expr) => expr_if.else_block.is_none()
                && inner_if_expr.else_block.is_none(),
            _ => false,
        },
        None => false,
    };
    if tail_is_collapsible && if_block.statements.len() == 0 {
        push_diagnostic(diagnostics, expr_if.node.ptr.id, COLLAPSIBLE_IF, Severity::Warning);
        assert(diag_views(diagnostics@) =~= old_views + seq![d]);
    } else {
    }
}

} // verus!
