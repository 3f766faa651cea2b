//! `while` loops that exit on `<`, `<=`, `>=` or `>`, which is costlier than `!=`.
use vstd::prelude::*;

use crate::diagnostics::{diag, diag_views, push_diagnostic, DiagView, PluginDiagnostic, Severity};
use crate::semantic::{Arenas, Condition, Expr, ExprId, ExprWhile};
use crate::text::{chars_of, ends_with, ends_with_exec};

verus! {

broadcast use vstd::seq::Seq::add_empty_right;

pub const INEFFICIENT_WHILE_COMP_MESSAGE: &'static str =
    "using [`<`, `<=`, `>=`, `>`] exit conditions is inefficient. Consider switching to `!=` or using ArrayTrait::multi_pop_front.";

pub const PARTIAL_ORD_PATTERNS: [&'static str; 4] = [
    "PartialOrd::lt\"",
    "PartialOrd::le\"",
    "PartialOrd::gt\"",
    "PartialOrd::ge\"",
];

/// The function name (as printed, quoted) is that of a `PartialOrd` function.
pub open spec fn is_partial_ord_name(name: Seq<char>) -> bool {
    ||| ends_with(name, "PartialOrd::lt\""@)
    ||| ends_with(name, "PartialOrd::le\""@)
    ||| ends_with(name, "PartialOrd::gt\""@)
    ||| ends_with(name, "PartialOrd::ge\""@)
}

/// One diagnostic for each `PartialOrd` call of the condition, through `&&`
/// and `||`, left to right.
pub open spec fn while_comp_diags(arenas: Arenas, id: ExprId) -> Seq<DiagView>
    decreases id,
{
    if id >= arenas.exprs@.len() {
        Seq::empty()
    } else {
        match arenas.exprs@[id as int] {
            Expr::FunctionCall(f) => if is_partial_ord_name(f.function.name@) {
                seq![diag(f.node.ptr.id, INEFFICIENT_WHILE_COMP_MESSAGE@, Severity::Warning)]
            } else {
                Seq::empty()
            },
            Expr::LogicalOperator(l) => if l.lhs < id && l.rhs < id {
                while_comp_diags(arenas, l.lhs) + while_comp_diags(arenas, l.rhs)
            } else {
                Seq::empty()
            },
            _ => Seq::empty(),
        }
    }
}

fn ends_with_partial_ord(name: &str) -> (r: bool)
    ensures
        r == is_partial_ord_name(name@),
{
    let n = chars_of(name);
    ends_with_exec(&n, &chars_of("PartialOrd::lt\"")) || ends_with_exec(
        &n,
        &chars_of("PartialOrd::le\""),
    ) || ends_with_exec(&n, &chars_of("PartialOrd::gt\"")) || ends_with_exec(
        &n,
        &chars_of("PartialOrd::ge\""),
    )
}

fn check_expression(id: ExprId, diagnostics: &mut Vec<PluginDiagnostic>, arenas: &Arenas)
    requires
        arenas.wf(),
        id < arenas.exprs@.len(),
    ensures
        diag_views(final(diagnostics)@) == diag_views(old(diagnostics)@) + while_comp_diags(
            *arenas,
            id,
        ),
    decreases id,
{
    let ghost old_views = diag_views(diagnostics@);
    proof {
        assert(arenas.expr_wf(id as int));
    }
    match &arenas.exprs[id] {
        Expr::FunctionCall(func_call) => {
            if ends_with_partial_ord(func_call.function.name.as_str()) {
                push_diagnostic(
                    diagnostics,
                    func_call.node.ptr.id,
                    INEFFICIENT_WHILE_COMP_MESSAGE,
                    Severity::Warning,
                );
                assert(diag_views(diagnostics@) =~= old_views + while_comp_diags(*arenas, id));
            } else {
            }
        },
        Expr::LogicalOperator(expr_logical) => {
            check_expression(expr_logical.lhs, diagnostics, arenas);
            check_expression(expr_logical.rhs, diagnostics, arenas);
            assert(diag_views(diagnostics@) =~= old_views + while_comp_diags(*arenas, id));
        },
        _ => {
        },
    }
}

/// Reports each `<`, `<=`, `>=` or `>` call of a `while` loop's condition
/// (through `&&` and `||`), which may be a costly exit condition.
pub fn check_inefficient_while_comp(
    expr_while: &ExprWhile,
    diagnostics: &mut Vec<PluginDiagnostic>,
    arenas: &Arenas,
)
    requires
        arenas.wf(),
        arenas.fits(Expr::While(*expr_while)),
    ensures
        diag_views(final(diagnostics)@) == diag_views(old(diagnostics)@) + match expr_while.condition {
            Condition::BoolExpr(c) => while_comp_diags(*arenas, c),
            _ => Seq::<DiagView>::empty(),
        },
{
    if let Condition::BoolExpr(expr_cond) = &expr_while.condition {
        check_expression(*expr_cond, diagnostics, arenas);
    } else {
        assert(diag_views(diagnostics@) + Seq::<DiagView>::empty() =~= diag_views(diagnostics@));
    }
}

} // verus!
