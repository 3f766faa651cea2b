//! What the manual lints look for in expressions and patterns: a call of a
//! given function, a variant that carries the variable that a pattern binds, and
//! a default value.
use vstd::prelude::*;

use crate::int_value::{eq as int_eq, IntValue};
use crate::lints::{function_trait_name_from_fn_id, trait_name, ARRAY_NEW, DEFAULT, FALSE};
use crate::semantic::{
    Arenas,
    Condition,
    Expr,
    ExprId,
    ExprIf,
    FixedSizeArrayItems,
    Pattern,
    Statement,
    VarId,
};
use crate::text::str_eq;

verus! {

/// The expression is a call of the function with this full name.
pub open spec fn expected_function(e: Expr, func_name: Seq<char>) -> bool {
    match e {
        Expr::FunctionCall(f) => f.function.full_name@ == func_name,
        _ => false,
    }
}

/// Whether the expression is a call of the function with this full name.
pub fn is_expected_function(expr: &Expr, func_name: &str) -> (r: bool)
    ensures
        r == expected_function(*expr, func_name@),
{
    match expr {
        Expr::FunctionCall(func_call) => str_eq(func_call.function.full_name.as_str(), func_name),
        _ => false,
    }
}

/// The pattern is an enum variant whose inner pattern binds the local variable
/// `arg`.
pub open spec fn enum_arg_is(arenas: Arenas, pattern: Pattern, arg: VarId) -> bool {
    match pattern {
        Pattern::EnumVariant(p) => match p.inner_pattern {
            Some(q) => match arenas.patterns@[q as int] {
                Pattern::Variable(_, id) => arg == VarId::Local(id),
                _ => false,
            },
            None => false,
        },
        _ => false,
    }
}

/// Whether the pattern is an enum variant whose inner pattern binds `arg`.
pub fn pattern_check_enum_arg(pattern: &Pattern, arg: &VarId, arenas: &Arenas) -> (r: bool)
    requires
        pattern matches Pattern::EnumVariant(p) ==> (p.inner_pattern matches Some(q) ==> q
            < arenas.patterns@.len()),
    ensures
        r == enum_arg_is(*arenas, *pattern, *arg),
{
    let enum_var_pattern = match pattern {
        Pattern::EnumVariant(p) => p,
        _ => {
            return false;
        },
    };
    let inner_pattern = match enum_var_pattern.inner_pattern {
        Some(q) => q,
        None => {
            return false;
        },
    };
    let enum_destruct_var = match &arenas.patterns[inner_pattern] {
        Pattern::Variable(_, id) => *id,
        _ => {
            return false;
        },
    };
    match arg {
        VarId::Local(expected_var) => *expected_var == enum_destruct_var,
        _ => false,
    }
}

/// The expression builds the variant with this full path from the variable that
/// the enum pattern binds.
pub open spec fn destructured_variable_used(
    arenas: Arenas,
    e: Expr,
    pattern: Pattern,
    enum_name: Seq<char>,
) -> bool {
    match e {
        Expr::EnumVariantCtor(c) => c.variant_path@ == enum_name && match arenas.exprs@[c.value_expr as int] {
            Expr::Var(_, v) => enum_arg_is(arenas, pattern, v),
            _ => false,
        },
        _ => false,
    }
}

/// The pattern ids under an existing pattern exist.
pub open spec fn pattern_fits(arenas: Arenas, pattern: Pattern) -> bool {
    pattern matches Pattern::EnumVariant(p) ==> (p.inner_pattern matches Some(q) ==> q
        < arenas.patterns@.len())
}

/// Whether the expression builds the variant `enum_name` from the variable that
/// the enum pattern binds.
pub fn is_destructured_variable_used_and_expected_variant(
    expr: &Expr,
    pattern: &Pattern,
    arenas: &Arenas,
    enum_name: &str,
) -> (r: bool)
    requires
        arenas.fits(*expr),
        pattern_fits(*arenas, *pattern),
    ensures
        r == destructured_variable_used(*arenas, *expr, *pattern, enum_name@),
{
    let enum_expr = match expr {
        Expr::EnumVariantCtor(e) => e,
        _ => {
            return false;
        },
    };
    if !str_eq(enum_expr.variant_path.as_str(), enum_name) {
        return false;
    }
    match &arenas.exprs[enum_expr.value_expr] {
        Expr::Var(_, v) => pattern_check_enum_arg(pattern, v, arenas),
        _ => false,
    }
}

/// The local variable that the first pattern of an `if let` binds inside an
/// enum variant, if it binds one.
pub open spec fn let_variable(arenas: Arenas, e: ExprIf) -> Option<u64> {
    match e.condition {
        Condition::Let(_, ps) => match arenas.patterns@[ps@[0] as int] {
            Pattern::EnumVariant(p) => match p.inner_pattern {
                Some(q) => match arenas.patterns@[q as int] {
                    Pattern::Variable(_, id) => Some(id),
                    _ => None,
                },
                None => None,
            },
            _ => None,
        },
        _ => None,
    }
}

/// The tail of the block at `id`, if it is a block with a tail.
pub open spec fn block_tail(arenas: Arenas, id: ExprId) -> Option<ExprId> {
    match arenas.exprs@[id as int] {
        Expr::Block(b) => b.tail,
        _ => None,
    }
}

/// The `if let` binds a variable that its block's tail returns.
pub open spec fn pattern_matches_tail_var(arenas: Arenas, e: ExprIf) -> bool {
    match (let_variable(arenas, e), block_tail(arenas, e.if_block)) {
        (Some(id), Some(t)) => match arenas.exprs@[t as int] {
            Expr::Var(_, v) => v == VarId::Local(id),
            _ => false,
        },
        _ => false,
    }
}

fn let_variable_exec(expr: &ExprIf, arenas: &Arenas) -> (r: Option<u64>)
    requires
        arenas.wf(),
        arenas.fits(Expr::If(*expr)),
    ensures
        r == let_variable(*arenas, *expr),
{
    if let Condition::Let(_, patterns) = &expr.condition {
        assert(0 <= patterns@[0] < arenas.patterns@.len());
        proof {
            assert(arenas.pattern_wf(patterns@[0] as int));
        }
        if let Pattern::EnumVariant(enum_pattern) = &arenas.patterns[patterns[0]] {
            if let Some(inner_pattern) = enum_pattern.inner_pattern {
                if let Pattern::Variable(_, id) = &arenas.patterns[inner_pattern] {
                    return Some(*id);
                }
            }
        }
    }
    None
}

fn block_tail_exec(id: ExprId, arenas: &Arenas) -> (r: Option<ExprId>)
    requires
        arenas.wf(),
        id < arenas.exprs@.len(),
    ensures
        r == block_tail(*arenas, id),
        r matches Some(t) ==> t < id,
{
    proof {
        assert(arenas.expr_wf(id as int));
    }
    match &arenas.exprs[id] {
        Expr::Block(b) => b.tail,
        _ => None,
    }
}

/// Whether the `if let` binds a variable that its block's tail returns.
pub fn if_expr_pattern_matches_tail_var(expr: &ExprIf, arenas: &Arenas) -> (r: bool)
    requires
        arenas.wf(),
        arenas.fits(Expr::If(*expr)),
    ensures
        r == pattern_matches_tail_var(*arenas, *expr),
{
    let destruct_var = match let_variable_exec(expr, arenas) {
        Some(id) => id,
        None => {
            return false;
        },
    };
    let tail_expr = match block_tail_exec(expr.if_block, arenas) {
        Some(t) => t,
        None => {
            return false;
        },
    };
    match &arenas.exprs[tail_expr] {
        Expr::Var(_, VarId::Local(local_return_var)) => destruct_var == *local_return_var,
        _ => false,
    }
}

/// The `if let` binds a variable inside an enum variant, and its block's tail
/// builds the variant `enum_name` from that variable.
pub open spec fn condition_and_block_match(arenas: Arenas, e: ExprIf, enum_name: Seq<char>) -> bool {
    match (let_variable(arenas, e), block_tail(arenas, e.if_block)) {
        (Some(id), Some(t)) => match arenas.exprs@[t as int] {
            Expr::EnumVariantCtor(c) => c.variant_path@ == enum_name && match arenas.exprs@[c.value_expr as int] {
                Expr::Var(_, v) => v == VarId::Local(id),
                _ => false,
            },
            _ => false,
        },
        _ => false,
    }
}

/// Whether the `if let` binds a variable and its block's tail builds the
/// variant `enum_name` from it.
pub fn if_expr_condition_and_block_match_enum_pattern(
    expr: &ExprIf,
    arenas: &Arenas,
    enum_name: &str,
) -> (r: bool)
    requires
        arenas.wf(),
        arenas.fits(Expr::If(*expr)),
    ensures
        r == condition_and_block_match(*arenas, *expr, enum_name@),
{
    let variable = match let_variable_exec(expr, arenas) {
        Some(id) => id,
        None => {
            return false;
        },
    };
    let tail_expr_id = match block_tail_exec(expr.if_block, arenas) {
        Some(t) => t,
        None => {
            return false;
        },
    };
    proof {
        assert(arenas.expr_wf(tail_expr_id as int));
    }
    match &arenas.exprs[tail_expr_id] {
        Expr::EnumVariantCtor(enum_var) => {
            if !str_eq(enum_var.variant_path.as_str(), enum_name) {
                return false;
            }
            match &arenas.exprs[enum_var.value_expr] {
                Expr::Var(_, VarId::Local(return_var)) => *return_var == variable,
                _ => false,
            }
        },
        _ => false,
    }
}

/// The expression `e`, whose sub-expressions are below `bound`, is a default
/// value: a call of `Default::default` or `ArrayTrait::new`, `""`, `0`, `false`,
/// a block that returns one (directly, or through a `let` of a variable that it
/// returns), or an array or tuple of them.
pub open spec fn is_default_bounded(arenas: Arenas, e: Expr, bound: int) -> bool
    decreases bound,
{
    match e {
        Expr::FunctionCall(f) => trait_name(f.function) == DEFAULT@ || trait_name(f.function)
            == ARRAY_NEW@,
        Expr::StringLiteral(_, s) => s@.len() == 0,
        Expr::Block(b) => {
            let subscope = b.statements@.len() == 1 && match arenas.statements@[b.statements@[0] as int] {
                Statement::Let(p, x) => match arenas.patterns@[p as int] {
                    Pattern::Variable(_, id) => match b.tail {
                        Some(t) => match arenas.exprs@[t as int] {
                            Expr::Var(_, VarId::Local(v)) => 0 <= x < bound && is_default_bounded(
                                arenas,
                                arenas.exprs@[x as int],
                                x as int,
                            ) && v == id,
                            _ => false,
                        },
                        None => false,
                    },
                    _ => false,
                },
                _ => false,
            };
            match b.tail {
                Some(t) => subscope || (0 <= t < bound && is_default_bounded(
                    arenas,
                    arenas.exprs@[t as int],
                    t as int,
                ) && b.statements@.len() == 0),
                None => false,
            }
        },
        Expr::FixedSizeArray(_, items) => match items {
            FixedSizeArrayItems::ValueAndSize(x) => 0 <= x < bound && is_default_bounded(
                arenas,
                arenas.exprs@[x as int],
                x as int,
            ),
            FixedSizeArrayItems::Items(v) => forall|k: int|
                0 <= k < v@.len() ==> 0 <= #[trigger] v@[k] < bound && is_default_bounded(
                    arenas,
                    arenas.exprs@[v@[k] as int],
                    v@[k] as int,
                ),
        },
        Expr::Literal(_, value) => value.value() == 0,
        Expr::EnumVariantCtor(c) => c.variant_path@ == FALSE@,
        Expr::Tuple(_, v) => forall|k: int|
            0 <= k < v@.len() ==> 0 <= #[trigger] v@[k] < bound && is_default_bounded(
                arenas,
                arenas.exprs@[v@[k] as int],
                v@[k] as int,
            ),
        _ => false,
    }
}

/// The expression is a default value (see `is_default_bounded`).
pub open spec fn is_default(arenas: Arenas, e: Expr) -> bool {
    is_default_bounded(arenas, e, arenas.exprs@.len() as int)
}

fn all_default(ids: &Vec<ExprId>, arenas: &Arenas, Ghost(bound): Ghost<int>) -> (r: bool)
    requires
        arenas.wf(),
        bound <= arenas.exprs@.len(),
        forall|k: int| 0 <= k < ids@.len() ==> 0 <= #[trigger] ids@[k] < bound,
    ensures
        r == forall|k: int|
            0 <= k < ids@.len() ==> 0 <= #[trigger] ids@[k] < bound && is_default_bounded(
                *arenas,
                arenas.exprs@[ids@[k] as int],
                ids@[k] as int,
            ),
    decreases bound, 0int,
{
    let mut i: usize = 0;
    while i < ids.len()
        invariant
            arenas.wf(),
            bound <= arenas.exprs@.len(),
            i <= ids@.len(),
            forall|k: int| 0 <= k < ids@.len() ==> 0 <= #[trigger] ids@[k] < bound,
            forall|k: int|
                0 <= k < i ==> is_default_bounded(
                    *arenas,
                    arenas.exprs@[#[trigger] ids@[k] as int],
                    ids@[k] as int,
                ),
        decreases ids@.len() - i,
    {
        let x = ids[i];
        proof {
            assert(arenas.expr_wf(x as int));
        }
        if !is_default_expr(&arenas.exprs[x], arenas, Ghost(x as int)) {
            return false;
        }
        i = i + 1;
    }
    true
}

fn is_default_expr(expr: &Expr, arenas: &Arenas, Ghost(bound): Ghost<int>) -> (r: bool)
    requires
        arenas.wf(),
        0 <= bound <= arenas.exprs@.len(),
        arenas.refs_below(*expr, bound),
    ensures
        r == is_default_bounded(*arenas, *expr, bound),
    decreases bound, 1int,
{
    match expr {
        Expr::FunctionCall(func_call) => {
            let name = function_trait_name_from_fn_id(&func_call.function);
            str_eq(name.as_str(), DEFAULT) || str_eq(name.as_str(), ARRAY_NEW)
        },
        Expr::StringLiteral(_, value) => value.as_str().unicode_len() == 0,
        Expr::Block(expr_block) => {
            let default_subscope = if expr_block.statements.len() == 1 {
                assert(0 <= expr_block.statements@[0] < arenas.statements@.len());
                let (pattern, value) = match &arenas.statements[expr_block.statements[0]] {
                    Statement::Let(p, x) => (*p, *x),
                    _ => {
                        return false;
                    },
                };
                let assigned_variable = match &arenas.patterns[pattern] {
                    Pattern::Variable(_, id) => *id,
                    _ => {
                        return false;
                    },
                };
                let tail = match expr_block.tail {
                    Some(t) => t,
                    None => {
                        return false;
                    },
                };
                let tail_var = match &arenas.exprs[tail] {
                    Expr::Var(_, VarId::Local(v)) => *v,
                    _ => {
                        return false;
                    },
                };
                proof {
                    assert(arenas.expr_wf(value as int));
                }
                is_default_expr(&arenas.exprs[value], arenas, Ghost(value as int)) && tail_var
                    == assigned_variable
            } else {
                false
            };
            let tail_expr_id = match expr_block.tail {
                Some(t) => t,
                None => {
                    return false;
                },
            };
            if default_subscope {
                return true;
            }
            proof {
                assert(arenas.expr_wf(tail_expr_id as int));
            }
            is_default_expr(&arenas.exprs[tail_expr_id], arenas, Ghost(tail_expr_id as int))
                && expr_block.statements.len() == 0
        },
        Expr::FixedSizeArray(_, items) => match items {
            FixedSizeArrayItems::ValueAndSize(x) => {
                proof {
                    assert(arenas.expr_wf(*x as int));
                }
                is_default_expr(&arenas.exprs[*x], arenas, Ghost(*x as int))
            },
            FixedSizeArrayItems::Items(ids) => all_default(ids, arenas, Ghost(bound)),
        },
        Expr::Literal(_, value) => int_eq(value, &IntValue::from_u32(0)),
        Expr::EnumVariantCtor(enum_variant) => str_eq(enum_variant.variant_path.as_str(), FALSE),
        Expr::Tuple(_, ids) => all_default(ids, arenas, Ghost(bound)),
        _ => false,
    }
}

/// Whether the expression is a default value: a call of `Default::default` or
/// `ArrayTrait::new`, `""`, `0`, `false`, a block that returns one, or an array or
/// tuple of them.
pub fn check_is_default(expr: &Expr, arenas: &Arenas) -> (r: bool)
    requires
        arenas.wf(),
        arenas.fits(*expr),
    ensures
        r == is_default(*arenas, *expr),
{
    is_default_expr(expr, arenas, Ghost(arenas.exprs@.len() as int))
}

} // verus!
