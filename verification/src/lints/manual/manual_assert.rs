//! `if cond { panic!(..) }`, which `assert!` says more simply.
use vstd::prelude::*;

use crate::diagnostics::{diag, diag_views, push_diagnostic, PluginDiagnostic, Severity};
use crate::syntax::{ConditionKind, Expr, ExprBlock, ExprIf, StatementKind};
use crate::text::str_eq;

verus! {

pub const MANUAL_ASSERT: &'static str = "`assert!` is simpler than `if`-then-`panic!`";

/// The block's first statement is a `panic!` call.
pub open spec fn starts_with_panic(block: ExprBlock) -> bool {
    match block.statements@[0].kind {
        StatementKind::Expr(Expr::InlineMacro(m)) => m.path.text_without_trivia@ == "panic"@,
        _ => false,
    }
}

/// Whether the block's first statement is a `panic!` call.
pub fn contains_panic(block_expr: &ExprBlock) -> (r: bool)
    requires
        block_expr.statements@.len() > 0,
    ensures
        r == starts_with_panic(*block_expr),
{
    match &block_expr.statements[0].kind {
        StatementKind::Expr(Expr::InlineMacro(inline_macro)) => str_eq(
            inline_macro.path.text_without_trivia.as_str(),
            "panic",
        ),
        _ => false,
    }
}

/// Reports an `if` with a plain condition whose block begins with `panic!`.
pub fn check_if_then_panic(expr: &ExprIf, diagnostics: &mut Vec<PluginDiagnostic>)
    requires
        expr.condition.kind is Expr ==> expr.if_block.statements@.len() > 0,
    ensures
        diag_views(final(diagnostics)@) == if expr.condition.kind is Expr && starts_with_panic(
            expr.if_block,
        ) {
            diag_views(old(diagnostics)@).push(diag(expr.node.ptr.id, MANUAL_ASSERT@, Severity::Warning))
        } else {
            diag_views(old(diagnostics)@)
        },
{
    if let ConditionKind::Expr(_) = &expr.condition.kind {
        if contains_panic(&expr.if_block) {
            push_diagnostic(diagnostics, expr.node.ptr.id, MANUAL_ASSERT, Severity::Warning);
        }
    }
}

} // verus!
