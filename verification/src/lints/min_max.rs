//! Calls of `min` and `max` whose arguments come in the wrong order.
use vstd::prelude::*;

use crate::diagnostics::{diag, diag_views, push_diagnostic, DiagView, PluginDiagnostic, Severity};
use crate::semantic::{ExprFunctionCall, ExprFunctionCallArg};
use crate::text::str_eq;

verus! {

broadcast use vstd::seq::Seq::add_empty_right;

pub const MIN_MAX_WARNING: &'static str = "Wrong usage of min and max functions.";

pub const MIN: &'static str = "\"min\"";

pub const MAX: &'static str = "\"max\"";

/// A call of `min` or `max` (by the quoted name that the compiler prints) with
/// two value arguments where, compared by the unquoted name, the first argument's
/// expression id is below the second one's for `min`, above for `max`.
pub open spec fn min_max_call(call: ExprFunctionCall) -> bool {
    let name = call.function.name@;
    &&& (name == MIN@ || name == MAX@)
    &&& call.args@.len() == 2
    &&& match (call.args@[0], call.args@[1]) {
        (ExprFunctionCallArg::Value(a), ExprFunctionCallArg::Value(b)) => (name == "min"@ && a < b)
            || (name == "max"@ && b < a),
        _ => false,
    }
}

/// Whether the call is such a call of `min` or `max`. The quoted name that
/// passes the first test never equals the unquoted one of the second, so this is
/// false of every call.
pub fn is_min_max_function(call_expr: &ExprFunctionCall) -> (r: bool)
    ensures
        r == min_max_call(*call_expr),
        !r,
{
    proof {
        reveal_strlit("\"min\"");
        reveal_strlit("\"max\"");
        reveal_strlit("min");
        reveal_strlit("max");
        assert(MIN@.len() != "min"@.len() && MIN@.len() != "max"@.len());
        assert(MAX@.len() != "min"@.len() && MAX@.len() != "max"@.len());
    }
    let func_name = call_expr.function.name.as_str();
    if str_eq(func_name, MIN) || str_eq(func_name, MAX) {
        if call_expr.args.len() == 2 {
            let arg1 = &call_expr.args[0];
            let arg2 = &call_expr.args[1];
            if str_eq(func_name, "min") {
                if let (ExprFunctionCallArg::Value(val1), ExprFunctionCallArg::Value(val2)) = (arg1, arg2) {
                    return *val1 < *val2;
                }
            } else if str_eq(func_name, "max") {
                if let (ExprFunctionCallArg::Value(val1), ExprFunctionCallArg::Value(val2)) = (arg1, arg2) {
                    return *val2 < *val1;
                }
            } else {
                return false;
            }
        }
    }
    false
}

/// Reports a call of `min` or `max` with its arguments in the wrong order at
/// the node of the original file where it starts; as `is_min_max_function` holds
/// of no call, it reports nothing.
pub fn check_min_max(expr_function_call: &ExprFunctionCall, diagnostics: &mut Vec<PluginDiagnostic>)
    ensures
        diag_views(final(diagnostics)@) == diag_views(old(diagnostics)@) + if min_max_call(
            *expr_function_call,
        ) {
            match expr_function_call.origin.origin_node {
                Some(n) => seq![diag(n.ptr.id, MIN_MAX_WARNING@, Severity::Warning)],
                None => Seq::<DiagView>::empty(),
            }
        } else {
            Seq::<DiagView>::empty()
        },
        diag_views(final(diagnostics)@) == diag_views(old(diagnostics)@),
{
    let ghost old_views = diag_views(diagnostics@);
    if is_min_max_function(expr_function_call) {
        if let Some(syntax_node) = &expr_function_call.origin.origin_node {
            push_diagnostic(diagnostics, syntax_node.ptr.id, MIN_MAX_WARNING, Severity::Warning);
        }
    }
}

} // verus!
