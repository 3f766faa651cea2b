//! `assert!` on a boolean literal.
use vstd::prelude::*;

use crate::diagnostics::{diag, diag_views, push_diagnostic, DiagView, PluginDiagnostic, Severity};
use crate::syntax::ExprInlineMacro;
use crate::text::str_eq;

verus! {

pub const ASSERT_MSG: &'static str = "assert!(true) is redundant and can be removed.";
pub const ASSERT_MSG_FALSE: &'static str = "assert!(false) can be replaced with panic!.";

/// The boolean that the text spells (`bool::from_str`): `true` or `false`, else none.
pub open spec fn parse_bool(s: Seq<char>) -> Option<bool> {
    if s == "true"@ {
        Some(true)
    } else if s == "false"@ {
        Some(false)
    } else {
        None
    }
}

/// The boolean that `expr` spells, if it spells one.
pub fn evaluate_expression(expr: &str) -> (r: Option<bool>)
    ensures
        r == parse_bool(expr@),
{
    if str_eq(expr, "true") {
        Some(true)
    } else if str_eq(expr, "false") {
        Some(false)
    } else {
        None
    }
}

/// What `check_assert` reports: `assert!(true)` is redundant, `assert!(false)` is
/// a panic.
pub open spec fn assert_on_constant(node: ExprInlineMacro) -> Seq<DiagView> {
    match node.arguments {
        Some(args) => if node.path.text_without_trivia@ == "assert"@ && args.len() == 1 {
            match parse_bool(args[0].arg_clause.text_without_trivia@) {
                Some(b) => if b {
                    seq![diag(node.node.ptr.id, ASSERT_MSG@, Severity::Warning)]
                } else {
                    seq![diag(node.node.ptr.id, ASSERT_MSG_FALSE@, Severity::Error)]
                },
                None => seq![],
            }
        } else {
            seq![]
        },
        None => seq![],
    }
}

/// Reports `assert!(true)` and `assert!(false)`.
pub fn check_assert(node: &ExprInlineMacro, diagnostics: &mut Vec<PluginDiagnostic>)
    ensures
        diag_views(final(diagnostics)@) == diag_views(old(diagnostics)@) + assert_on_constant(*node),
{
    if str_eq(node.path.text_without_trivia.as_str(), "assert") {
        if let Some(args) = &node.arguments {
            if args.len() == 1 {
                if let Some(result) = evaluate_expression(args[0].arg_clause.text_without_trivia.as_str()) {
                    if result {
                        push_diagnostic(diagnostics, node.node.ptr.id, ASSERT_MSG, Severity::Warning);
                    } else {
                        push_diagnostic(diagnostics, node.node.ptr.id, ASSERT_MSG_FALSE, Severity::Error);
                    }
                    assert(diag_views(diagnostics@) =~= diag_views(old(diagnostics)@) + assert_on_constant(*node));
                    return;
                }
            }
        }
    }
    assert(diag_views(diagnostics@) =~= diag_views(old(diagnostics)@) + assert_on_constant(*node));
}

} // verus!
