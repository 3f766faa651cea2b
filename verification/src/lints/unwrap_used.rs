//! Calls of `unwrap`.
use vstd::prelude::*;

use crate::diagnostics::{diag, diag_views, push_diagnostic, DiagView, PluginDiagnostic, Severity};
use crate::semantic::ExprFunctionCall;
use crate::text::str_eq;

verus! {

broadcast use vstd::seq::Seq::add_empty_right;

pub const UNWRAP_USED: &'static str =
    "Use of unwrap() detected. Consider using '?' or 'expect()' instead.";

pub const UNWRAP: &'static str = "\"unwrap\"";

/// Reports a call of `unwrap` at the node of the original file where the call
/// (or the macro call that generated it) starts, where that node was found.
pub fn check_unwrap_used(expr_function_call: &ExprFunctionCall, diagnostics: &mut Vec<PluginDiagnostic>)
    ensures
        diag_views(final(diagnostics)@) == diag_views(old(diagnostics)@) + if expr_function_call.function.name@
            == UNWRAP@ {
            match expr_function_call.origin.origin_node {
                Some(n) => seq![diag(n.ptr.id, UNWRAP_USED@, Severity::Warning)],
                None => Seq::<DiagView>::empty(),
            }
        } else {
            Seq::<DiagView>::empty()
        },
{
    let ghost old_views = diag_views(diagnostics@);
    if str_eq(expr_function_call.function.name.as_str(), UNWRAP) {
        if let Some(syntax_node) = &expr_function_call.origin.origin_node {
            push_diagnostic(diagnostics, syntax_node.ptr.id, UNWRAP_USED, Severity::Warning);
            assert(diag_views(diagnostics@) =~= old_views + seq![
                diag(syntax_node.ptr.id, UNWRAP_USED@, Severity::Warning),
            ]);
            return ;
        }
    }
}

} // verus!
