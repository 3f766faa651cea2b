//! `assert_eq!` and `assert_ne!` against a boolean literal.
use vstd::prelude::*;

use crate::diagnostics::{diag, diag_views, push_diagnostic, DiagView, PluginDiagnostic, Severity};
use crate::lints::assertions_on_constants::{evaluate_expression, parse_bool};
use crate::syntax::ExprInlineMacro;
use crate::text::str_eq;

verus! {

pub const ASSERT_EQ_FALSE_MSG: &'static str = "assert_eq!(expr, false) can be replaced with assert!(!expr).";
pub const ASSERT_EQ_TRUE_MSG: &'static str = "assert_eq!(expr, true) can be replaced with assert!(expr).";
pub const ASSERT_NE_FALSE_MSG: &'static str = "assert_ne!(expr, false) can be replaced with assert!(expr).";
pub const ASSERT_NE_TRUE_MSG: &'static str = "assert_ne!(expr, true) can be replaced with assert!(!expr).";

/// What `check_assert` reports: a two-argument `assert_eq!` or `assert_ne!` whose
/// second argument is a boolean literal.
pub open spec fn bool_assert(node: ExprInlineMacro) -> Seq<DiagView> {
    match node.arguments {
        Some(args) => if args.len() == 2 {
            match parse_bool(args[1].arg_clause.text_without_trivia@) {
                Some(b) => {
                    let path = node.path.text_without_trivia@;
                    if path == "assert_eq"@ {
                        seq![diag(node.node.ptr.id, if b { ASSERT_EQ_TRUE_MSG@ } else { ASSERT_EQ_FALSE_MSG@ }, Severity::Warning)]
                    } else if path == "assert_ne"@ {
                        seq![diag(node.node.ptr.id, if b { ASSERT_NE_TRUE_MSG@ } else { ASSERT_NE_FALSE_MSG@ }, Severity::Warning)]
                    } else {
                        seq![]
                    }
                },
                None => seq![],
            }
        } else {
            seq![]
        },
        None => seq![],
    }
}

/// Reports `assert_eq!(expr, true)` and its kin.
pub fn check_assert(node: &ExprInlineMacro, diagnostics: &mut Vec<PluginDiagnostic>)
    ensures
        diag_views(final(diagnostics)@) == diag_views(old(diagnostics)@) + bool_assert(*node),
{
    if let Some(args) = &node.arguments {
        if args.len() == 2 {
            if let Some(right_val) = evaluate_expression(args[1].arg_clause.text_without_trivia.as_str()) {
                let path = node.path.text_without_trivia.as_str();
                if str_eq(path, "assert_eq") {
                    let message = if right_val { ASSERT_EQ_TRUE_MSG } else { ASSERT_EQ_FALSE_MSG };
                    push_diagnostic(diagnostics, node.node.ptr.id, message, Severity::Warning);
                } else if str_eq(path, "assert_ne") {
                    let message = if right_val { ASSERT_NE_TRUE_MSG } else { ASSERT_NE_FALSE_MSG };
                    push_diagnostic(diagnostics, node.node.ptr.id, message, Severity::Warning);
                }
            }
        }
    }
    assert(diag_views(diagnostics@) =~= diag_views(old(diagnostics)@) + bool_assert(*node));
}

} // verus!
