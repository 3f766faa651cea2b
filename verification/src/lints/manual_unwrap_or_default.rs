//! An `if let` or a `match` that returns the value or a default, which
//! `unwrap_or_default` says in one call.
use vstd::prelude::*;

use crate::diagnostics::{diag, diag_views, push_diagnostic, PluginDiagnostic, Severity};
use crate::semantic::{Arenas, Condition, Expr, ExprId};
use crate::text::{chars_of, ends_with, ends_with_exec};

verus! {

pub const MANUAL_UNWRAP_OR_DEFAULT: &'static str =
    "This can be done in one call with `.unwrap_or_default()`";

/// The value of the `if` block: its tail, or the block itself where it has
/// none.
pub open spec fn if_branch(arenas: Arenas, block: ExprId) -> ExprId {
    match arenas.exprs@[block as int] {
        Expr::Block(b) => match b.tail {
            Some(t) => t,
            None => block,
        },
        _ => block,
    }
}

/// The two branches of an `if let` with one pattern (the tail of the `if`
/// block and the tail of the `else` block, if there is one) or of a two-arm
/// `match` (the arms' expressions), by id.
pub open spec fn branches(arenas: Arenas, e: Expr) -> Option<(ExprId, Option<ExprId>)> {
    match e {
        Expr::If(i) => match i.condition {
            Condition::Let(_, ps) => if ps@.len() == 1 {
                Some(
                    (
                        if_branch(arenas, i.if_block),
                        match i.else_block {
                            Some(b) => match arenas.exprs@[b as int] {
                                Expr::Block(block) => block.tail,
                                _ => None,
                            },
                            None => None,
                        },
                    ),
                )
            } else {
                None
            },
            _ => None,
        },
        Expr::Match(m) => if m.arms@.len() == 2 {
            Some((m.arms@[0].expression, Some(m.arms@[1].expression)))
        } else {
            None
        },
        _ => None,
    }
}

/// The branches of an `if let` or a `match`, by id.
pub fn parse_and_extract(expr: &Expr, arenas: &Arenas) -> (r: Option<(ExprId, Option<ExprId>)>)
    requires
        arenas.wf(),
        arenas.fits(*expr),
    ensures
        r == branches(*arenas, *expr),
        r matches Some((a, b)) ==> a < arenas.exprs@.len() && (b matches Some(c) ==> c
            < arenas.exprs@.len()),
{
    match expr {
        Expr::If(expr_if) => {
            if let Condition::Let(_, patterns) = &expr_if.condition {
                if patterns.len() == 1 {
                    let if_block_id = expr_if.if_block;
                    proof {
                        assert(arenas.expr_wf(if_block_id as int));
                    }
                    let value = match &arenas.exprs[if_block_id] {
                        Expr::Block(block) => match block.tail {
                            Some(t) => t,
                            None => if_block_id,
                        },
                        _ => if_block_id,
                    };
                    let else_expr = match expr_if.else_block {
                        Some(else_block_id) => {
                            proof {
                                assert(arenas.expr_wf(else_block_id as int));
                            }
                            match &arenas.exprs[else_block_id] {
                                Expr::Block(expr_block) => expr_block.tail,
                                _ => None,
                            }
                        },
                        None => None,
                    };
                    return Some((value, else_expr));
                }
            }
            None
        },
        Expr::Match(expr_match) => {
            if expr_match.arms.len() == 2 {
                proof {
                    assert(0 <= expr_match.arms@[0].expression);
                    assert(0 <= expr_match.arms@[1].expression);
                }
                Some((expr_match.arms[0].expression, Some(expr_match.arms[1].expression)))
            } else {
                None
            }
        },
        _ => None,
    }
}

/// The first branch is a variable and the second a call of a function whose
/// name ends in `::new` or `::default`.
pub open spec fn unwrap_or_default_branches(some_block: Expr, none_expr: Expr) -> bool {
    &&& some_block is Var
    &&& match none_expr {
        Expr::FunctionCall(f) => ends_with(f.function.name@, "::new\""@) || ends_with(
            f.function.name@,
            "::default\""@,
        ),
        _ => false,
    }
}

fn is_manual_unwrap_or_default(some_block: &Expr, none_expr: &Expr) -> (r: bool)
    ensures
        r == unwrap_or_default_branches(*some_block, *none_expr),
{
    let is_var = matches!(some_block, Expr::Var(_, _));
    let is_default = match none_expr {
        Expr::FunctionCall(call_expr) => {
            let func_name = chars_of(call_expr.function.name.as_str());
            ends_with_exec(&func_name, &chars_of("::new\"")) || ends_with_exec(
                &func_name,
                &chars_of("::default\""),
            )
        },
        _ => false,
    };
    is_var && is_default
}

/// Reports an `if let` or a `match` whose first branch is a variable and whose
/// second calls a `new` or `default` function.
pub fn check_manual_unwrap_or_default(
    expr: &Expr,
    diagnostics: &mut Vec<PluginDiagnostic>,
    arenas: &Arenas,
)
    requires
        arenas.wf(),
        arenas.fits(*expr),
    ensures
        diag_views(final(diagnostics)@) == match branches(*arenas, *expr) {
            Some((a, Some(b))) => if unwrap_or_default_branches(
                arenas.exprs@[a as int],
                arenas.exprs@[b as int],
            ) {
                diag_views(old(diagnostics)@).push(
                    diag(expr.spec_node().ptr.id, MANUAL_UNWRAP_OR_DEFAULT@, Severity::Warning),
                )
            } else {
                diag_views(old(diagnostics)@)
            },
            _ => diag_views(old(diagnostics)@),
        },
{
    if let Some((some_block, Some(none_expr))) = parse_and_extract(expr, arenas) {
        if is_manual_unwrap_or_default(&arenas.exprs[some_block], &arenas.exprs[none_expr]) {
            push_diagnostic(
                diagnostics,
                expr.node().ptr.id,
                MANUAL_UNWRAP_OR_DEFAULT,
                Severity::Warning,
            );
        }
    }
}

} // verus!
