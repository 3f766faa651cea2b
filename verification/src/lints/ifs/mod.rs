//! Lints on `if` expressions of the semantic model.
use vstd::prelude::*;

use crate::diagnostics::PluginDiagnostic;
use crate::semantic::{Arenas, Condition, Expr, ExprFunctionCall, ExprFunctionCallArg, ExprIf};

pub mod check_if_else_same;
pub mod collapsible_if;
pub mod collapsible_if_else;
pub mod equatable_if_let;
pub mod ifs_same_cond;

verus! {

pub const ALLOWED: [&'static str; 2] = [
    collapsible_if_else::LINT_NAME,
    equatable_if_let::LINT_NAME,
];

/// No argument of the call is a `ref` argument.
pub open spec fn no_ref_arg(call: ExprFunctionCall) -> bool {
    forall|k: int| 0 <= k < call.args@.len() ==> #[trigger] call.args@[k] is Value
}

/// Whether no argument of the call is a `ref` argument.
pub fn ensure_no_ref_arg(func_call: &ExprFunctionCall) -> (r: bool)
    ensures
        r == no_ref_arg(*func_call),
{
    let mut i: usize = 0;
    while i < func_call.args.len()
        invariant
            i <= func_call.args@.len(),
            forall|k: int| 0 <= k < i ==> #[trigger] func_call.args@[k] is Value,
        decreases func_call.args@.len() - i,
    {
        if let ExprFunctionCallArg::Reference(_) = &func_call.args[i] {
            return false;
        }
        i = i + 1;
    }
    true
}

pub const REDUNDANT_COMPARISON: &'static str =
    "redundant comparison found. This expression always evaluates to true or false.";

/// Looks at the first argument of an `if` whose condition is a call; it
/// reports nothing.
pub fn check_redundant_comparison(
    if_expr: &ExprIf,
    diagnostics: &mut Vec<PluginDiagnostic>,
    arenas: &Arenas,
)
    requires
        arenas.fits(Expr::If(*if_expr)),
        if_expr.condition matches Condition::BoolExpr(b) ==> (arenas.exprs@[b as int] matches Expr::FunctionCall(
            f,
        ) ==> f.args@.len() > 0),
    ensures
        final(diagnostics)@ == old(diagnostics)@,
{
    let bool_expr = match &if_expr.condition {
        Condition::BoolExpr(b) => *b,
        _ => {
            return ;
        },
    };
    let logical_op = match &arenas.exprs[bool_expr] {
        Expr::FunctionCall(f) => f,
        _ => {
            return ;
        },
    };
    let _first_arg = &logical_op.args[0];
}

} // verus!
