//! `x & 1` to test parity, which `DivRem::div_rem` does more cheaply in Cairo.
use vstd::prelude::*;

use crate::diagnostics::{diag, diag_views, push_diagnostic, DiagView, PluginDiagnostic, Severity};
use crate::int_value::{eq as int_eq, IntValue};
use crate::lints::{function_trait_name_from_fn_id, trait_name, AND};
use crate::semantic::{Arenas, Expr, ExprFunctionCall, ExprFunctionCallArg};
use crate::syntax::{allows, is_allowed};
use crate::text::str_eq;

verus! {

broadcast use vstd::seq::Seq::add_empty_right;

pub const BITWISE_FOR_PARITY: &'static str =
    "You seem to be trying to use `&` for parity check. Consider using `DivRem::div_rem()` instead.";

pub const ALLOWED: [&'static str; 1] = [LINT_NAME];

pub const LINT_NAME: &'static str = "bitwise_for_parity_check";

/// A call of the corelib `BitAnd::bitand` whose right operand is the literal 1.
pub open spec fn is_bitwise_parity_check(call: ExprFunctionCall, arenas: Arenas) -> bool {
    &&& trait_name(call.function) == AND@
    &&& match call.args@[1] {
        ExprFunctionCallArg::Value(v) => match arenas.exprs@[v as int] {
            Expr::Literal(_, value) => value.value() == 1,
            _ => false,
        },
        _ => false,
    }
}

/// Reports `x & 1`, unless an `#[allow(bitwise_for_parity_check)]` stands on an
/// ancestor.
pub fn check_bitwise_for_parity(
    expr_func: &ExprFunctionCall,
    arenas: &Arenas,
    diagnostics: &mut Vec<PluginDiagnostic>,
)
    requires
        arenas.wf(),
        arenas.fits(Expr::FunctionCall(*expr_func)),
        trait_name(expr_func.function) == AND@ ==> expr_func.args@.len() >= 2,
    ensures
        diag_views(final(diagnostics)@) == diag_views(old(diagnostics)@) + if !allows(
            expr_func.node,
            LINT_NAME@,
        ) && is_bitwise_parity_check(*expr_func, *arenas) {
            seq![diag(expr_func.node.ptr.id, BITWISE_FOR_PARITY@, Severity::Warning)]
        } else {
            Seq::<DiagView>::empty()
        },
{
    let ghost old_views = diag_views(diagnostics@);
    if is_allowed(&expr_func.node, LINT_NAME) {
        return ;
    }
    let trait_fn = function_trait_name_from_fn_id(&expr_func.function);
    if str_eq(trait_fn.as_str(), AND) {
        proof {
            assert(arenas.refs_below(Expr::FunctionCall(*expr_func), arenas.exprs@.len() as int));
            assert(expr_func.args@[1] matches ExprFunctionCallArg::Value(v) ==> v < arenas.exprs@.len());
        }
        if let ExprFunctionCallArg::Value(val) = &expr_func.args[1] {
            if let Expr::Literal(_, lit) = &arenas.exprs[*val] {
                if int_eq(lit, &IntValue::from_u32(1)) {
                    push_diagnostic(diagnostics, expr_func.node.ptr.id, BITWISE_FOR_PARITY, Severity::Warning);
                    assert(diag_views(diagnostics@) =~= old_views + seq![
                        diag(expr_func.node.ptr.id, BITWISE_FOR_PARITY@, Severity::Warning),
                    ]);
                    return ;
                }
            }
        }
    }
}

/// A `&` is reported as a parity check exactly where it is the corelib's
/// `BitAnd::bitand` and its right operand is the literal 1.
pub proof fn lemma_parity_check_means_and_one(call: ExprFunctionCall, arenas: Arenas)
    ensures
        is_bitwise_parity_check(call, arenas) == (trait_name(call.function) == AND@
            && (call.args@[1] matches ExprFunctionCallArg::Value(v) && arenas.exprs@[v as int] matches Expr::Literal(
            _,
            one,
        ) && one.value() == 1)),
{
}

} // verus!
