//! An `if` whose `else` block is written exactly as its `if` block, most
//! likely a copy and paste error.
use vstd::prelude::*;

use crate::diagnostics::{diag, diag_views, push_diagnostic, DiagView, PluginDiagnostic, Severity};
use crate::syntax::{BlockOrIf, ExprIf, OptionElseClause};
use crate::text::str_eq;

verus! {

pub const IF_ELSE_SAME: &'static str =
    "if and else blocks are the same. This is likely a copy & paste error.";

/// The `if` has an `else` block whose text is that of its `if` block.
pub open spec fn is_if_else_same(expr: ExprIf) -> bool {
    match expr.else_clause {
        OptionElseClause::ElseClause(c) => match c.else_block_or_if {
            BlockOrIf::Block(b) => b.node.text@ == expr.if_block.node.text@,
            _ => false,
        },
        _ => false,
    }
}

/// Reports an `if` whose `else` block is written as its `if` block.
pub fn check_if_else_same(expr: &ExprIf, diagnostics: &mut Vec<PluginDiagnostic>)
    ensures
        diag_views(final(diagnostics)@) == if is_if_else_same(*expr) {
            diag_views(old(diagnostics)@).push(diag(expr.node.ptr.id, IF_ELSE_SAME@, Severity::Warning))
        } else {
            diag_views(old(diagnostics)@)
        },
{
    if let OptionElseClause::ElseClause(else_clause) = &expr.else_clause {
        if let BlockOrIf::Block(else_block) = &else_clause.else_block_or_if {
            if str_eq(else_block.node.text.as_str(), expr.if_block.node.text.as_str()) {
                push_diagnostic(diagnostics, expr.node.ptr.id, IF_ELSE_SAME, Severity::Warning);
            }
        }
    }
}

/// An `if` is reported exactly where it has a plain `else` block (not an
/// `else if`) written as its `if` block; an `else if` chain never is.
pub proof fn lemma_if_else_same_means_equal_blocks(expr: ExprIf)
    ensures
        is_if_else_same(expr) == (expr.else_clause matches OptionElseClause::ElseClause(c)
            && c.else_block_or_if matches BlockOrIf::Block(b) && b.node.text@ == expr.if_block.node.text@),
        expr.else_clause matches OptionElseClause::ElseClause(c) ==> (c.else_block_or_if is If
            ==> !is_if_else_same(expr)),
{
}

} // verus!
