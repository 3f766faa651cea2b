//! Two comparisons of one variable with literals, joined by `&&`, whose bounds
//! leave the variable no value.
use vstd::prelude::*;

use crate::diagnostics::{diag, diag_views, push_diagnostic, DiagView, PluginDiagnostic, Severity};
use crate::int_value::{le as int_le, lt as int_lt, IntValue};
use crate::lints::double_comparison::{check_impossible_comparison, impossible, impossible_bounds};
use crate::lints::{function_trait_name_from_fn_id, trait_name, GE, GT, LE, LT};
use crate::semantic::{Arenas, Expr, ExprFunctionCallArg, ExprLogicalOperator, LogicalOperator};
use crate::syntax::{allows, is_allowed};
use crate::text::str_eq;

verus! {

broadcast use vstd::seq::Seq::add_empty_right;

pub const IMPOSSIBLE_COMPARISON: &'static str = "Impossible condition, always false";

pub const ALLOWED: [&'static str; 1] = [LINT_NAME];

pub const LINT_NAME: &'static str = "impossible_comparison";

/// The diagnostics of `check_impossible_comparision` on `e`.
pub open spec fn impossible_comparison_diags(e: ExprLogicalOperator, arenas: Arenas) -> Seq<
    DiagView,
> {
    if allows(e.node, LINT_NAME@) {
        Seq::empty()
    } else {
        match (arenas.exprs@[e.lhs as int], arenas.exprs@[e.rhs as int]) {
            (Expr::FunctionCall(lc), Expr::FunctionCall(rc)) => if lc.args@.len() == 2
                && rc.args@.len() == 2 && impossible(
                arenas,
                lc,
                rc,
                trait_name(lc.function),
                e.op,
                trait_name(rc.function),
            ) {
                seq![diag(e.node.ptr.id, IMPOSSIBLE_COMPARISON@, Severity::Error)]
            } else {
                Seq::empty()
            },
            _ => Seq::empty(),
        }
    }
}

/// Reports `x > a && x < b` and the like where no `x` meets both comparisons
/// (each read with the variable first: `a < x` as `x > a`), unless an
/// `#[allow(impossible_comparison)]` stands on an ancestor.
pub fn check_impossible_comparision(
    expr_logical: &ExprLogicalOperator,
    arenas: &Arenas,
    diagnostics: &mut Vec<PluginDiagnostic>,
)
    requires
        arenas.wf(),
        arenas.fits(Expr::LogicalOperator(*expr_logical)),
    ensures
        diag_views(final(diagnostics)@) == diag_views(old(diagnostics)@)
            + impossible_comparison_diags(*expr_logical, *arenas),
{
    let ghost old_views = diag_views(diagnostics@);
    if is_allowed(&expr_logical.node, LINT_NAME) {
        return ;
    }
    proof {
        assert(arenas.expr_wf(expr_logical.lhs as int));
        assert(arenas.expr_wf(expr_logical.rhs as int));
    }
    let lhs_comparison = match &arenas.exprs[expr_logical.lhs] {
        Expr::FunctionCall(c) => c,
        _ => {
            return ;
        },
    };
    if lhs_comparison.args.len() != 2 {
        return ;
    }
    let rhs_comparison = match &arenas.exprs[expr_logical.rhs] {
        Expr::FunctionCall(c) => c,
        _ => {
            return ;
        },
    };
    if rhs_comparison.args.len() != 2 {
        return ;
    }
    proof {
        assert forall|k: int| 0 <= k < 2 implies (#[trigger] lhs_comparison.args@[k] matches ExprFunctionCallArg::Value(
            e,
        ) ==> 0 <= e < arenas.exprs@.len()) by {
            assert(arenas.refs_below(arenas.exprs@[expr_logical.lhs as int], expr_logical.lhs as int));
        }
        assert forall|k: int| 0 <= k < 2 implies (#[trigger] rhs_comparison.args@[k] matches ExprFunctionCallArg::Value(
            e,
        ) ==> 0 <= e < arenas.exprs@.len()) by {
            assert(arenas.refs_below(arenas.exprs@[expr_logical.rhs as int], expr_logical.rhs as int));
        }
    }
    let lhs_fn_trait_name = function_trait_name_from_fn_id(&lhs_comparison.function);
    let rhs_fn_trait_name = function_trait_name_from_fn_id(&rhs_comparison.function);
    if check_impossible_comparison(
        lhs_comparison,
        rhs_comparison,
        lhs_fn_trait_name.as_str(),
        rhs_fn_trait_name.as_str(),
        expr_logical,
        arenas,
    ) {
        push_diagnostic(diagnostics, expr_logical.node.ptr.id, IMPOSSIBLE_COMPARISON, Severity::Error);
        assert(diag_views(diagnostics@) =~= old_views + seq![
            diag(expr_logical.node.ptr.id, IMPOSSIBLE_COMPARISON@, Severity::Error),
        ]);
    } else {
    }
}

/// Whether the bounds `lhs_int` and `rhs_int` of `x lhs_op lhs_int middle_op x
/// rhs_op rhs_int` leave `x` no value.
pub fn is_impossible_double_comparison(
    lhs_op: &str,
    rhs_op: &str,
    lhs_int: &IntValue,
    rhs_int: &IntValue,
    middle_op: &LogicalOperator,
) -> (r: bool)
    ensures
        r == impossible_bounds(lhs_op@, *middle_op, rhs_op@, lhs_int.value(), rhs_int.value()),
{
    if *middle_op != LogicalOperator::AndAnd {
        return false;
    }
    let (l_gt, l_ge, l_lt, l_le) = (str_eq(lhs_op, GT), str_eq(lhs_op, GE), str_eq(lhs_op, LT), str_eq(lhs_op, LE));
    let (r_gt, r_ge, r_lt, r_le) = (str_eq(rhs_op, GT), str_eq(rhs_op, GE), str_eq(rhs_op, LT), str_eq(rhs_op, LE));
    let a_lt_b = int_lt(lhs_int, rhs_int);
    let a_le_b = int_le(lhs_int, rhs_int);
    (l_gt && r_lt && !a_lt_b) || (l_gt && r_le && !a_lt_b) || (l_ge && r_lt && !a_lt_b) || (l_ge
        && r_le && !a_le_b) || (l_lt && r_gt && a_le_b) || (l_lt && r_ge && a_le_b) || (l_le
        && r_gt && a_le_b) || (l_le && r_ge && a_lt_b)
}

} // verus!
