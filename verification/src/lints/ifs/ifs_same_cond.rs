//! An `else if` whose condition is written as that of the `if` it follows.
use vstd::prelude::*;

use crate::diagnostics::{diag, diag_views, push_diagnostic, DiagView, PluginDiagnostic, Severity};
use crate::lints::ifs::{ensure_no_ref_arg, no_ref_arg};
use crate::semantic::{condition_expr, Arenas, Condition, Expr, ExprId, ExprIf};
use crate::syntax::{allows, is_allowed};
use crate::text::str_eq;

verus! {

broadcast use vstd::seq::Seq::add_empty_right;

pub const DUPLICATE_IF_CONDITION: &'static str = "Consecutive `if` with the same condition found.";

pub const LINT_NAME: &'static str = "ifs_same_cond";

/// A condition that is a call with no `ref` argument, which is not compared.
pub open spec fn skipped_condition(e: Expr) -> bool {
    match e {
        Expr::FunctionCall(f) => no_ref_arg(f),
        _ => false,
    }
}

/// The expression of an `if`'s condition.
pub open spec fn condition_of(arenas: Arenas, e: ExprIf) -> Expr {
    arenas.exprs@[condition_expr(e.condition) as int]
}

/// Some `else if` of the chain that starts at `block` has a condition, not
/// skipped, written as `text`.
pub open spec fn duplicate_in_chain(arenas: Arenas, text: Seq<char>, block: Option<ExprId>) -> bool
    decreases
            match block {
                Some(id) => id + 1,
                None => 0,
            },
{
    match block {
        None => false,
        Some(id) => if id < arenas.exprs@.len() {
            match arenas.exprs@[id as int] {
                Expr::If(e) => {
                    let c = condition_of(arenas, e);
                    if !skipped_condition(c) && c.spec_node().text_without_trivia@ == text {
                        true
                    } else {
                        match e.else_block {
                            Some(n) => if n < id {
                                duplicate_in_chain(arenas, text, Some(n))
                            } else {
                                false
                            },
                            None => false,
                        }
                    }
                },
                _ => false,
            }
        } else {
            false
        },
    }
}

/// The diagnostics of `check_duplicate_if_condition` on an `if`.
pub open spec fn duplicate_if_condition_diags(e: ExprIf, arenas: Arenas) -> Seq<DiagView> {
    let c = condition_of(arenas, e);
    if allows(e.node, LINT_NAME@) || skipped_condition(c) {
        Seq::empty()
    } else if duplicate_in_chain(arenas, c.spec_node().text_without_trivia@, e.else_block) {
        seq![diag(e.node.ptr.id, DUPLICATE_IF_CONDITION@, Severity::Warning)]
    } else {
        Seq::empty()
    }
}

fn condition_id(c: &Condition) -> (r: ExprId)
    ensures
        r == condition_expr(*c),
{
    match c {
        Condition::BoolExpr(e) => *e,
        Condition::Let(e, _) => *e,
    }
}

fn is_skipped_condition(e: &Expr) -> (r: bool)
    ensures
        r == skipped_condition(*e),
{
    match e {
        Expr::FunctionCall(f) => ensure_no_ref_arg(f),
        _ => false,
    }
}

/// Reports an `if` followed, in its chain of `else if`s, by one whose
/// condition is written the same, unless an `#[allow(ifs_same_cond)]` stands on
/// an ancestor; conditions that are calls with no `ref` argument are not compared.
pub fn check_duplicate_if_condition(
    expr_if: &ExprIf,
    arenas: &Arenas,
    diagnostics: &mut Vec<PluginDiagnostic>,
)
    requires
        arenas.wf(),
        arenas.fits(Expr::If(*expr_if)),
    ensures
        diag_views(final(diagnostics)@) == diag_views(old(diagnostics)@)
            + duplicate_if_condition_diags(*expr_if, *arenas),
{
    let ghost old_views = diag_views(diagnostics@);
    if is_allowed(&expr_if.node, LINT_NAME) {
        return ;
    }
    let cond_expr = &arenas.exprs[condition_id(&expr_if.condition)];
    if is_skipped_condition(cond_expr) {
        return ;
    }
    let if_condition_text = cond_expr.node().text_without_trivia.as_str();
    let ghost text = if_condition_text@;
    let mut current_block = expr_if.else_block;
    loop
        invariant
            arenas.wf(),
            diag_views(diagnostics@) == old_views,
            if_condition_text@ == text,
            old_views == diag_views(old(diagnostics)@),
            !allows(expr_if.node, LINT_NAME@),
            !skipped_condition(condition_of(*arenas, *expr_if)),
            text == condition_of(*arenas, *expr_if).spec_node().text_without_trivia@,
            current_block matches Some(n) ==> n < arenas.exprs@.len(),
            duplicate_in_chain(*arenas, text, current_block) == duplicate_in_chain(
                *arenas,
                text,
                expr_if.else_block,
            ),
        ensures
            diag_views(diagnostics@) == old_views,
            !duplicate_in_chain(*arenas, text, expr_if.else_block),
        decreases
                match current_block {
                    Some(id) => id + 1,
                    None => 0,
                },
    {
        let expr_id = match current_block {
            Some(id) => id,
            None => {
                break;
            },
        };
        proof {
            assert(arenas.expr_wf(expr_id as int));
        }
        if let Expr::If(else_if_block) = &arenas.exprs[expr_id] {
            current_block = else_if_block.else_block;
            let else_if_cond = &arenas.exprs[condition_id(&else_if_block.condition)];
            if is_skipped_condition(else_if_cond) {
                continue;
            }
            if str_eq(if_condition_text, else_if_cond.node().text_without_trivia.as_str()) {
                assert(duplicate_in_chain(*arenas, text, Some(expr_id)));
                push_diagnostic(
                    diagnostics,
                    expr_if.node.ptr.id,
                    DUPLICATE_IF_CONDITION,
                    Severity::Warning,
                );
                assert(diag_views(diagnostics@) =~= old_views + seq![
                    diag(expr_if.node.ptr.id, DUPLICATE_IF_CONDITION@, Severity::Warning),
                ]);
                return ;
            }
        } else {
            break;
        }
    }
}

} // verus!
