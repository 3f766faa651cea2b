//! Calls of `panic` left in the code.
use vstd::prelude::*;

use crate::diagnostics::{diag, diag_views, push_diagnostic, DiagView, PluginDiagnostic, Severity};
use crate::semantic::ExprFunctionCall;
use crate::syntax::{allows, is_allowed};
use crate::text::str_eq;

verus! {

broadcast use vstd::seq::Seq::add_empty_right;

pub const PANIC_IN_CODE: &'static str = "Leaving `panic` in the code is discouraged.";

pub const PANIC: &'static str = "core::panics::panic";

pub const ALLOWED: [&'static str; 1] = [LINT_NAME];

pub const LINT_NAME: &'static str = "panic";

/// The diagnostics of `check_panic_usage` on a call: at the call where it
/// stands in the file, or at the node of the original file that a macro
/// expanded into it, unless an `#[allow(panic)]` stands above either.
pub open spec fn panic_usage_diags(call: ExprFunctionCall) -> Seq<DiagView> {
    if allows(call.node, LINT_NAME@) || call.function.full_name@ != PANIC@ {
        Seq::empty()
    } else if !call.origin.from_macro {
        seq![diag(call.node.ptr.id, PANIC_IN_CODE@, Severity::Warning)]
    } else {
        match call.origin.origin_node {
            Some(n) => if allows(n, LINT_NAME@) {
                Seq::empty()
            } else {
                seq![diag(n.ptr.id, PANIC_IN_CODE@, Severity::Warning)]
            },
            None => Seq::empty(),
        }
    }
}

/// Reports a call of the corelib's `panic`, where it stands or, for one that a
/// macro generated, at the node of the original file that the macro call stands
/// at; not where an `#[allow(panic)]` stands on an ancestor of either.
pub fn check_panic_usage(expr_function_call: &ExprFunctionCall, diagnostics: &mut Vec<PluginDiagnostic>)
    ensures
        diag_views(final(diagnostics)@) == diag_views(old(diagnostics)@) + panic_usage_diags(
            *expr_function_call,
        ),
{
    let ghost old_views = diag_views(diagnostics@);
    if is_allowed(&expr_function_call.node, LINT_NAME) || !str_eq(
        expr_function_call.function.full_name.as_str(),
        PANIC,
    ) {
        return ;
    }
    if !expr_function_call.origin.from_macro {
        push_diagnostic(diagnostics, expr_function_call.node.ptr.id, PANIC_IN_CODE, Severity::Warning);
        assert(diag_views(diagnostics@) =~= old_views + panic_usage_diags(*expr_function_call));
        return ;
    }
    if let Some(syntax_node) = &expr_function_call.origin.origin_node {
        if is_allowed(syntax_node, LINT_NAME) {
            return ;
        }
        push_diagnostic(diagnostics, syntax_node.ptr.id, PANIC_IN_CODE, Severity::Warning);
        assert(diag_views(diagnostics@) =~= old_views + panic_usage_diags(*expr_function_call));
        return ;
    }
}

} // verus!
