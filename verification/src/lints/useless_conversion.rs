//! `.into()` to the type that the value already has.
use vstd::prelude::*;

use crate::diagnostics::{diag, diag_views, new_diagnostic, PluginDiagnostic, Severity};
use crate::syntax::ExprFunctionCall;
use crate::text::{chars_of, ends_with, ends_with_exec, str_eq};

verus! {

pub const USELESS_CONVERSION: &'static str = "This conversion is unnecessary.";

/// The call ends in `.into()` and the type that it converts from, taken as the
/// call's text, is the type expected of it, taken as `String`.
pub open spec fn is_useless_conversion(function_call: ExprFunctionCall) -> bool {
    let t = function_call.node.text_without_trivia@;
    ends_with(t, ".into()"@) && t == "String"@
}

/// Warns on a conversion to the type that the value already has.
pub fn check_useless_conversion(function_call: &ExprFunctionCall, diagnostics: &mut Vec<PluginDiagnostic>)
    ensures
        diag_views(final(diagnostics)@) == if is_useless_conversion(*function_call) {
            diag_views(old(diagnostics)@).push(
                diag(function_call.node.ptr.id, USELESS_CONVERSION@, Severity::Warning),
            )
        } else {
            diag_views(old(diagnostics)@)
        },
{
    let callee = chars_of(function_call.node.text_without_trivia.as_str());
    if ends_with_exec(&callee, &chars_of(".into()")) {
        let argument_type = determine_type_of_expr(function_call);
        let expected_type = determine_expected_type(function_call);
        if let (Some(arg_type), Some(exp_type)) = (argument_type, expected_type) {
            if str_eq(arg_type.as_str(), exp_type.as_str()) {
                let d = create_diagnostic(USELESS_CONVERSION, function_call.node.ptr.id, Severity::Warning);
                diagnostics.push(d);
                assert(diag_views(diagnostics@) =~= diag_views(old(diagnostics)@).push(
                    diag(function_call.node.ptr.id, USELESS_CONVERSION@, Severity::Warning)));
            }
        }
    }
}

/// The type of the converted value, taken as the call's text.
fn determine_type_of_expr(expr: &ExprFunctionCall) -> (r: Option<String>)
    ensures
        r matches Some(t) && t@ == expr.node.text_without_trivia@,
{
    Some(expr.node.text_without_trivia.clone())
}

/// The type expected of the call, taken as `String`.
fn determine_expected_type(function_call: &ExprFunctionCall) -> (r: Option<String>)
    ensures
        r matches Some(t) && t@ == "String"@,
{
    Some(String::from_str("String"))
}

fn create_diagnostic(message: &str, stable_ptr: u64, severity: Severity) -> (d: PluginDiagnostic)
    ensures
        d@ == diag(stable_ptr, message@, severity),
{
    new_diagnostic(stable_ptr, message, severity)
}

} // verus!
