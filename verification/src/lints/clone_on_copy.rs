//! `.clone()` called on a value of a `Copy` type.
use vstd::prelude::*;

use crate::diagnostics::{diag, diag_views, push_diagnostic, PluginDiagnostic, Severity};
use crate::syntax::{Expr, ExprFunctionCall};
use crate::text::str_eq;

verus! {

pub const CLONE_ON_COPY: &'static str =
    "Copy types implement Clone for generics, not for using the clone method on a concrete type.";

/// The last segment of the called path is `clone`.
pub open spec fn is_clone_call_spec(func_call: ExprFunctionCall) -> bool {
    let s = func_call.path.segments@;
    s.len() > 0 && s.last()@ == "clone"@
}

/// The names of the primitive types that are taken as `Copy`.
pub open spec fn is_copy_type_name(name: Seq<char>) -> bool {
    name == "u8"@ || name == "u16"@ || name == "u32"@ || name == "u64"@ || name == "usize"@ || name
        == "felt252"@
}

/// The segment before the last one names a primitive `Copy` type.
pub open spec fn is_copy_type_spec(func_call: ExprFunctionCall) -> bool {
    let s = func_call.path.segments@;
    s.len() > 1 && is_copy_type_name(s[s.len() - 2]@)
}

fn is_clone_call(func_call: &ExprFunctionCall) -> (r: bool)
    ensures
        r == is_clone_call_spec(*func_call),
{
    let segments = &func_call.path.segments;
    if segments.len() > 0 {
        return str_eq(segments[segments.len() - 1].as_str(), "clone");
    }
    false
}

fn is_copy_type(func_call: &ExprFunctionCall) -> (r: bool)
    ensures
        r == is_copy_type_spec(*func_call),
{
    let segments = &func_call.path.segments;
    if segments.len() > 1 {
        let t = segments[segments.len() - 2].as_str();
        return str_eq(t, "u8") || str_eq(t, "u16") || str_eq(t, "u32") || str_eq(t, "u64")
            || str_eq(t, "usize") || str_eq(t, "felt252");
    }
    false
}

/// A call such as `u32::clone(x)` on a primitive `Copy` type.
pub open spec fn is_clone_on_copy(expr: Expr) -> bool {
    expr matches Expr::FunctionCall(f) && is_clone_call_spec(f) && is_copy_type_spec(f)
}

/// Warns on `clone` called through a primitive `Copy` type.
pub fn check_clone_on_copy(expr: &Expr, diagnostics: &mut Vec<PluginDiagnostic>)
    ensures
        diag_views(final(diagnostics)@) == if is_clone_on_copy(*expr) {
            diag_views(old(diagnostics)@).push(
                diag(expr.spec_node().ptr.id, CLONE_ON_COPY@, Severity::Warning),
            )
        } else {
            diag_views(old(diagnostics)@)
        },
{
    if let Expr::FunctionCall(func_call) = expr {
        if is_clone_call(func_call) && is_copy_type(func_call) {
            push_diagnostic(diagnostics, func_call.node.ptr.id, CLONE_ON_COPY, Severity::Warning);
        }
    }
}

} // verus!
