//! Lints that find hand-written forms of `Option` and `Result` methods, as a
//! `match` or as an `if let`.
use vstd::prelude::*;

use crate::lints::manual::helpers::{
    block_tail,
    check_is_default,
    condition_and_block_match,
    destructured_variable_used,
    enum_arg_is,
    expected_function,
    if_expr_condition_and_block_match_enum_pattern,
    if_expr_pattern_matches_tail_var,
    is_default,
    is_destructured_variable_used_and_expected_variant,
    is_expected_function,
    pattern_check_enum_arg,
    pattern_matches_tail_var,
};
use crate::diagnostics::{diag, diag_views, push_diagnostic, DiagView, PluginDiagnostic, Severity};
use crate::lints::{ERR, FALSE, NONE, OK, PANIC_WITH_FELT252, SOME, TRUE};
use crate::semantic::{Arenas, Condition, Expr, ExprId, ExprIf, ExprMatch, MatchArm, Pattern};
use crate::syntax::{allows, is_allowed};
use crate::text::str_eq;

pub mod helpers;
pub mod manual;
pub mod manual_assert;
pub mod manual_expect;
pub mod manual_expect_err;
pub mod manual_is;
pub mod manual_is_none;
pub mod manual_is_some;
pub mod manual_ok;
pub mod manual_ok_or;
pub mod manual_unwrap_or;
pub mod manual_unwrap_or_default;

verus! {

broadcast use vstd::seq::Seq::add_empty_right;

/// The method that a `match` or an `if let` is checked to write out by hand.
#[derive(Clone, Copy, Debug, PartialEq, Eq, Structural)]
pub enum ManualLint {
    ManualOkOr,
    ManualIsSome,
    ManualIsNone,
    ManualExpect,
    ManualUnwrapOrDefault,
    ManualIsOk,
    ManualIsErr,
    ManualOptExpect,
    ManualResExpect,
    ManualOk,
    ManualErr,
    ManualExpectErr,
}

/// The name of the lint that reports a hand-written `err()`.
pub const MANUAL_ERR_LINT_NAME: &'static str = "manual_err";

pub const ALLOWED: [&'static str; 10] = [
    manual_is::SOME_LINT_NAME,
    manual_is::NONE_LINT_NAME,
    manual_is::OK_LINT_NAME,
    manual_is::ERR_LINT_NAME,
    manual_ok_or::LINT_NAME,
    manual_expect::LINT_NAME,
    manual_unwrap_or_default::LINT_NAME,
    manual_ok::LINT_NAME,
    MANUAL_ERR_LINT_NAME,
    manual_expect_err::LINT_NAME,
];

/// The expression at `id` builds the variant with this full path.
pub open spec fn expected_variant(arenas: Arenas, id: ExprId, variant: Seq<char>) -> bool {
    match arenas.exprs@[id as int] {
        Expr::EnumVariantCtor(c) => c.variant_path@ == variant,
        _ => false,
    }
}

/// The arm returns the variable that its first pattern binds in a variant.
pub open spec fn arm_returns_bound_var(arenas: Arenas, arm: MatchArm) -> bool {
    match arenas.exprs@[arm.expression as int] {
        Expr::Var(_, v) => enum_arg_is(arenas, arenas.patterns@[arm.patterns@[0] as int], v),
        _ => false,
    }
}

/// The arm builds the variant `variant` from the variable its pattern binds.
pub open spec fn arm_rewraps(arenas: Arenas, arm: MatchArm, variant: Seq<char>) -> bool {
    destructured_variable_used(
        arenas,
        arenas.exprs@[arm.expression as int],
        arenas.patterns@[arm.patterns@[0] as int],
        variant,
    )
}

/// What the `Option::Some` arm must do for each lint.
pub open spec fn some_arm_ok(arenas: Arenas, arm: MatchArm, lint: ManualLint) -> bool {
    match lint {
        ManualLint::ManualOkOr => arm_rewraps(arenas, arm, OK@),
        ManualLint::ManualIsSome => expected_variant(arenas, arm.expression, TRUE@),
        ManualLint::ManualIsNone => expected_variant(arenas, arm.expression, FALSE@),
        ManualLint::ManualOptExpect => arm_returns_bound_var(arenas, arm),
        ManualLint::ManualUnwrapOrDefault => arm_returns_bound_var(arenas, arm),
        _ => false,
    }
}

/// What the `Result::Ok` arm must do for each lint.
pub open spec fn ok_arm_ok(arenas: Arenas, arm: MatchArm, lint: ManualLint) -> bool {
    match lint {
        ManualLint::ManualIsOk => expected_variant(arenas, arm.expression, TRUE@),
        ManualLint::ManualIsErr => expected_variant(arenas, arm.expression, FALSE@),
        ManualLint::ManualOk => arm_rewraps(arenas, arm, SOME@),
        ManualLint::ManualErr => expected_variant(arenas, arm.expression, NONE@),
        ManualLint::ManualResExpect => arm_returns_bound_var(arenas, arm),
        ManualLint::ManualExpectErr => expected_function(
            arenas.exprs@[arm.expression as int],
            PANIC_WITH_FELT252@,
        ),
        _ => false,
    }
}

/// What the `Option::None` arm must do for each lint.
pub open spec fn none_arm_ok(arenas: Arenas, arm_expression: ExprId, lint: ManualLint) -> bool {
    match lint {
        ManualLint::ManualOkOr => expected_variant(arenas, arm_expression, ERR@),
        ManualLint::ManualIsSome => expected_variant(arenas, arm_expression, FALSE@),
        ManualLint::ManualIsNone => expected_variant(arenas, arm_expression, TRUE@),
        ManualLint::ManualOptExpect => expected_function(
            arenas.exprs@[arm_expression as int],
            PANIC_WITH_FELT252@,
        ),
        ManualLint::ManualUnwrapOrDefault => is_default(arenas, arenas.exprs@[arm_expression as int]),
        _ => false,
    }
}

/// What the `Result::Err` arm must do for each lint.
pub open spec fn err_arm_ok(arenas: Arenas, arm: MatchArm, lint: ManualLint) -> bool {
    match lint {
        ManualLint::ManualIsOk => expected_variant(arenas, arm.expression, FALSE@),
        ManualLint::ManualIsErr => expected_variant(arenas, arm.expression, TRUE@),
        ManualLint::ManualOk => expected_variant(arenas, arm.expression, NONE@),
        ManualLint::ManualErr => arm_rewraps(arenas, arm, SOME@),
        ManualLint::ManualResExpect => expected_function(
            arenas.exprs@[arm.expression as int],
            PANIC_WITH_FELT252@,
        ),
        ManualLint::ManualExpectErr => arm_returns_bound_var(arenas, arm),
        _ => false,
    }
}

/// The variant path of the arm's first pattern, if it is an enum pattern.
pub open spec fn arm_variant(arenas: Arenas, arm: MatchArm) -> Option<Seq<char>> {
    match arenas.patterns@[arm.patterns@[0] as int] {
        Pattern::EnumVariant(p) => Some(p.variant_path@),
        _ => None,
    }
}

/// The `match` writes out the method of `lint` by hand, and the lint is not
/// allowed on an ancestor.
pub open spec fn manual_match(arenas: Arenas, m: ExprMatch, lint: ManualLint, lint_name: Seq<char>) -> bool {
    &&& !allows(m.node, lint_name)
    &&& m.arms@.len() == 2
    &&& match arm_variant(arenas, m.arms@[0]) {
        Some(v) => if v == SOME@ {
            some_arm_ok(arenas, m.arms@[0], lint)
        } else if v == OK@ {
            ok_arm_ok(arenas, m.arms@[0], lint)
        } else {
            false
        },
        None => false,
    }
    &&& match arm_variant(arenas, m.arms@[1]) {
        Some(v) => if v == NONE@ {
            none_arm_ok(arenas, m.arms@[1].expression, lint)
        } else if v == ERR@ {
            err_arm_ok(arenas, m.arms@[1], lint)
        } else {
            false
        },
        None => false,
    }
}

/// Whether the expression at `id` builds the variant with this full path.
fn is_expected_variant(expr: &ExprId, arenas: &Arenas, expected_variant: &str) -> (r: bool)
    requires
        *expr < arenas.exprs@.len(),
    ensures
        r == self::expected_variant(*arenas, *expr, expected_variant@),
{
    match &arenas.exprs[*expr] {
        Expr::EnumVariantCtor(c) => str_eq(c.variant_path.as_str(), expected_variant),
        _ => false,
    }
}

/// The facts about a match arm that the arm checks rely on.
pub open spec fn arm_fits(arenas: Arenas, arm: MatchArm) -> bool {
    &&& arenas.wf()
    &&& arm.expression < arenas.exprs@.len()
    &&& arm.patterns@.len() > 0
    &&& arm.patterns@[0] < arenas.patterns@.len()
}

fn returns_bound_var(arm: &MatchArm, arenas: &Arenas) -> (r: bool)
    requires
        arm_fits(*arenas, *arm),
    ensures
        r == arm_returns_bound_var(*arenas, *arm),
{
    proof {
        assert(arenas.pattern_wf(arm.patterns@[0] as int));
    }
    match &arenas.exprs[arm.expression] {
        Expr::Var(_, v) => pattern_check_enum_arg(&arenas.patterns[arm.patterns[0]], v, arenas),
        _ => false,
    }
}

fn rewraps(arm: &MatchArm, arenas: &Arenas, variant: &str) -> (r: bool)
    requires
        arm_fits(*arenas, *arm),
    ensures
        r == arm_rewraps(*arenas, *arm, variant@),
{
    proof {
        assert(arenas.pattern_wf(arm.patterns@[0] as int));
        assert(arenas.expr_wf(arm.expression as int));
    }
    is_destructured_variable_used_and_expected_variant(
        &arenas.exprs[arm.expression],
        &arenas.patterns[arm.patterns[0]],
        arenas,
        variant,
    )
}

fn check_syntax_some_arm(arm: &MatchArm, arenas: &Arenas, manual_lint: ManualLint) -> (r: bool)
    requires
        arm_fits(*arenas, *arm),
    ensures
        r == some_arm_ok(*arenas, *arm, manual_lint),
{
    match manual_lint {
        ManualLint::ManualOkOr => rewraps(arm, arenas, OK),
        ManualLint::ManualIsSome => is_expected_variant(&arm.expression, arenas, TRUE),
        ManualLint::ManualIsNone => is_expected_variant(&arm.expression, arenas, FALSE),
        ManualLint::ManualOptExpect => returns_bound_var(arm, arenas),
        ManualLint::ManualUnwrapOrDefault => returns_bound_var(arm, arenas),
        _ => false,
    }
}

fn check_syntax_ok_arm(arm: &MatchArm, arenas: &Arenas, manual_lint: ManualLint) -> (r: bool)
    requires
        arm_fits(*arenas, *arm),
    ensures
        r == ok_arm_ok(*arenas, *arm, manual_lint),
{
    match manual_lint {
        ManualLint::ManualIsOk => is_expected_variant(&arm.expression, arenas, TRUE),
        ManualLint::ManualIsErr => is_expected_variant(&arm.expression, arenas, FALSE),
        ManualLint::ManualOk => rewraps(arm, arenas, SOME),
        ManualLint::ManualErr => is_expected_variant(&arm.expression, arenas, NONE),
        ManualLint::ManualResExpect => returns_bound_var(arm, arenas),
        ManualLint::ManualExpectErr => is_expected_function(
            &arenas.exprs[arm.expression],
            PANIC_WITH_FELT252,
        ),
        _ => false,
    }
}

fn check_syntax_none_arm(arm_expression: &ExprId, arenas: &Arenas, manual_lint: ManualLint) -> (r:
    bool)
    requires
        arenas.wf(),
        *arm_expression < arenas.exprs@.len(),
    ensures
        r == none_arm_ok(*arenas, *arm_expression, manual_lint),
{
    match manual_lint {
        ManualLint::ManualOkOr => is_expected_variant(arm_expression, arenas, ERR),
        ManualLint::ManualIsSome => is_expected_variant(arm_expression, arenas, FALSE),
        ManualLint::ManualIsNone => is_expected_variant(arm_expression, arenas, TRUE),
        ManualLint::ManualOptExpect => is_expected_function(
            &arenas.exprs[*arm_expression],
            PANIC_WITH_FELT252,
        ),
        ManualLint::ManualUnwrapOrDefault => {
            proof {
                assert(arenas.expr_wf(*arm_expression as int));
            }
            check_is_default(&arenas.exprs[*arm_expression], arenas)
        },
        _ => false,
    }
}

fn check_syntax_err_arm(arm: &MatchArm, arenas: &Arenas, manual_lint: ManualLint) -> (r: bool)
    requires
        arm_fits(*arenas, *arm),
    ensures
        r == err_arm_ok(*arenas, *arm, manual_lint),
{
    match manual_lint {
        ManualLint::ManualIsOk => is_expected_variant(&arm.expression, arenas, FALSE),
        ManualLint::ManualIsErr => is_expected_variant(&arm.expression, arenas, TRUE),
        ManualLint::ManualOk => is_expected_variant(&arm.expression, arenas, NONE),
        ManualLint::ManualErr => rewraps(arm, arenas, SOME),
        ManualLint::ManualResExpect => is_expected_function(
            &arenas.exprs[arm.expression],
            PANIC_WITH_FELT252,
        ),
        ManualLint::ManualExpectErr => returns_bound_var(arm, arenas),
        _ => false,
    }
}

/// Whether a two-arm `match` on an `Option` or a `Result` writes out the method
/// of `manual_lint` by hand, unless `lint_name` is allowed on an ancestor.
pub fn check_manual(
    expr_match: &ExprMatch,
    arenas: &Arenas,
    manual_lint: ManualLint,
    lint_name: &str,
) -> (r: bool)
    requires
        arenas.wf(),
        arenas.fits(Expr::Match(*expr_match)),
    ensures
        r == manual_match(*arenas, *expr_match, manual_lint, lint_name@),
{
    if is_allowed(&expr_match.node, lint_name) {
        return false;
    }
    if expr_match.arms.len() != 2 {
        return false;
    }
    proof {
        assert(arenas.refs_below(Expr::Match(*expr_match), arenas.exprs@.len() as int));
        assert(0 <= expr_match.arms@[0].expression);
        assert(0 <= expr_match.arms@[1].expression);
        assert(expr_match.arms@[0].patterns@.len() > 0);
        assert(expr_match.arms@[1].patterns@.len() > 0);
        assert(0 <= expr_match.arms@[0].patterns@[0] < arenas.patterns@.len());
        assert(0 <= expr_match.arms@[1].patterns@[0] < arenas.patterns@.len());
    }
    let first_arm = &expr_match.arms[0];
    let second_arm = &expr_match.arms[1];
    let found_first_arm = match &arenas.patterns[first_arm.patterns[0]] {
        Pattern::EnumVariant(enum_pattern) => {
            let enum_name = enum_pattern.variant_path.as_str();
            if str_eq(enum_name, SOME) {
                check_syntax_some_arm(first_arm, arenas, manual_lint)
            } else if str_eq(enum_name, OK) {
                check_syntax_ok_arm(first_arm, arenas, manual_lint)
            } else {
                return false;
            }
        },
        _ => {
            return false;
        },
    };
    let found_second_arm = match &arenas.patterns[second_arm.patterns[0]] {
        Pattern::EnumVariant(enum_pattern) => {
            let enum_name = enum_pattern.variant_path.as_str();
            if str_eq(enum_name, NONE) {
                check_syntax_none_arm(&second_arm.expression, arenas, manual_lint)
            } else if str_eq(enum_name, ERR) {
                check_syntax_err_arm(second_arm, arenas, manual_lint)
            } else {
                return false;
            }
        },
        _ => {
            return false;
        },
    };
    found_first_arm && found_second_arm
}

/// The tail of the `if`'s block, where the block is one with no statement.
pub open spec fn if_tail(arenas: Arenas, e: ExprIf) -> Option<ExprId> {
    match arenas.exprs@[e.if_block as int] {
        Expr::Block(b) => if b.statements@.len() == 0 {
            b.tail
        } else {
            None
        },
        _ => None,
    }
}

/// The tail of the `else` block, where it is a block with no statement.
pub open spec fn else_tail(arenas: Arenas, e: ExprIf) -> Option<ExprId> {
    match e.else_block {
        Some(b) => match arenas.exprs@[b as int] {
            Expr::Block(block) => if block.statements@.len() == 0 {
                block.tail
            } else {
                None
            },
            _ => None,
        },
        None => None,
    }
}

/// What the block of an `if let Option::Some(..)` must do for each lint.
pub open spec fn opt_if_ok(arenas: Arenas, e: ExprIf, lint: ManualLint) -> bool {
    match if_tail(arenas, e) {
        Some(t) => match lint {
            ManualLint::ManualOkOr => condition_and_block_match(arenas, e, OK@),
            ManualLint::ManualIsSome => expected_variant(arenas, t, TRUE@),
            ManualLint::ManualIsNone => expected_variant(arenas, t, FALSE@),
            ManualLint::ManualOptExpect => pattern_matches_tail_var(arenas, e),
            ManualLint::ManualUnwrapOrDefault => pattern_matches_tail_var(arenas, e),
            _ => false,
        },
        None => false,
    }
}

/// What the block of an `if let Result::Ok(..)` must do for each lint.
pub open spec fn res_if_ok(arenas: Arenas, e: ExprIf, lint: ManualLint) -> bool {
    match if_tail(arenas, e) {
        Some(t) => match lint {
            ManualLint::ManualIsOk => expected_variant(arenas, t, TRUE@),
            ManualLint::ManualIsErr => expected_variant(arenas, t, FALSE@),
            ManualLint::ManualOk => condition_and_block_match(arenas, e, SOME@),
            ManualLint::ManualResExpect => pattern_matches_tail_var(arenas, e),
            _ => false,
        },
        None => false,
    }
}

/// What the block of an `if let Result::Err(..)` must do for each lint.
pub open spec fn err_if_ok(arenas: Arenas, e: ExprIf, lint: ManualLint) -> bool {
    match lint {
        ManualLint::ManualErr => condition_and_block_match(arenas, e, SOME@),
        ManualLint::ManualExpectErr => pattern_matches_tail_var(arenas, e),
        _ => false,
    }
}

/// What the `else` block after `if let Option::Some(..)` must do for each lint.
pub open spec fn opt_else_ok(arenas: Arenas, e: ExprIf, lint: ManualLint) -> bool {
    match else_tail(arenas, e) {
        Some(t) => match lint {
            ManualLint::ManualOkOr => expected_variant(arenas, t, ERR@),
            ManualLint::ManualIsSome => expected_variant(arenas, t, FALSE@),
            ManualLint::ManualIsNone => expected_variant(arenas, t, TRUE@),
            ManualLint::ManualOptExpect => expected_function(
                arenas.exprs@[t as int],
                PANIC_WITH_FELT252@,
            ),
            ManualLint::ManualUnwrapOrDefault => is_default(arenas, arenas.exprs@[t as int]),
            _ => false,
        },
        None => false,
    }
}

/// What the `else` block after `if let Result::Ok(..)` must do for each lint.
pub open spec fn res_else_ok(arenas: Arenas, e: ExprIf, lint: ManualLint) -> bool {
    match else_tail(arenas, e) {
        Some(t) => match lint {
            ManualLint::ManualIsOk => expected_variant(arenas, t, FALSE@),
            ManualLint::ManualIsErr => expected_variant(arenas, t, TRUE@),
            ManualLint::ManualOk => expected_variant(arenas, t, NONE@),
            ManualLint::ManualResExpect => expected_function(
                arenas.exprs@[t as int],
                PANIC_WITH_FELT252@,
            ),
            _ => false,
        },
        None => false,
    }
}

/// What the `else` block after `if let Result::Err(..)` must do for each lint.
pub open spec fn err_else_ok(arenas: Arenas, e: ExprIf, lint: ManualLint) -> bool {
    match else_tail(arenas, e) {
        Some(t) => match lint {
            ManualLint::ManualErr => expected_variant(arenas, t, NONE@),
            ManualLint::ManualExpectErr => expected_function(
                arenas.exprs@[t as int],
                PANIC_WITH_FELT252@,
            ),
            _ => false,
        },
        None => false,
    }
}

/// The variant path of the first pattern of an `if let`, if it is an enum
/// pattern.
pub open spec fn let_variant(arenas: Arenas, e: ExprIf) -> Option<Seq<char>> {
    match e.condition {
        Condition::Let(_, ps) => match arenas.patterns@[ps@[0] as int] {
            Pattern::EnumVariant(p) => Some(p.variant_path@),
            _ => None,
        },
        _ => None,
    }
}

/// The `if let` writes out the method of `lint` by hand, and the lint is not
/// allowed on an ancestor.
pub open spec fn manual_if(arenas: Arenas, e: ExprIf, lint: ManualLint, lint_name: Seq<char>) -> bool {
    &&& !allows(e.node, lint_name)
    &&& match let_variant(arenas, e) {
        Some(v) => if v == SOME@ {
            opt_if_ok(arenas, e, lint) && opt_else_ok(arenas, e, lint)
        } else if v == OK@ {
            res_if_ok(arenas, e, lint) && res_else_ok(arenas, e, lint)
        } else if v == ERR@ {
            err_if_ok(arenas, e, lint) && err_else_ok(arenas, e, lint)
        } else {
            false
        },
        None => false,
    }
}

fn if_tail_exec(expr: &ExprIf, arenas: &Arenas) -> (r: Option<ExprId>)
    requires
        arenas.wf(),
        arenas.fits(Expr::If(*expr)),
    ensures
        r == if_tail(*arenas, *expr),
        r matches Some(t) ==> t < arenas.exprs@.len(),
{
    proof {
        assert(arenas.expr_wf(expr.if_block as int));
    }
    match &arenas.exprs[expr.if_block] {
        Expr::Block(b) => if b.statements.len() == 0 {
            b.tail
        } else {
            None
        },
        _ => None,
    }
}

fn else_tail_exec(expr: &ExprIf, arenas: &Arenas) -> (r: Option<ExprId>)
    requires
        arenas.wf(),
        arenas.fits(Expr::If(*expr)),
    ensures
        r == else_tail(*arenas, *expr),
        r matches Some(t) ==> t < arenas.exprs@.len(),
{
    match expr.else_block {
        Some(block) => {
            proof {
                assert(arenas.expr_wf(block as int));
            }
            match &arenas.exprs[block] {
                Expr::Block(b) => if b.statements.len() == 0 {
                    b.tail
                } else {
                    None
                },
                _ => None,
            }
        },
        None => None,
    }
}

fn check_syntax_opt_if(expr: &ExprIf, arenas: &Arenas, manual_lint: ManualLint) -> (r: bool)
    requires
        arenas.wf(),
        arenas.fits(Expr::If(*expr)),
    ensures
        r == opt_if_ok(*arenas, *expr, manual_lint),
{
    let tail_expr = match if_tail_exec(expr, arenas) {
        Some(t) => t,
        None => {
            return false;
        },
    };
    match manual_lint {
        ManualLint::ManualOkOr => if_expr_condition_and_block_match_enum_pattern(expr, arenas, OK),
        ManualLint::ManualIsSome => is_expected_variant(&tail_expr, arenas, TRUE),
        ManualLint::ManualIsNone => is_expected_variant(&tail_expr, arenas, FALSE),
        ManualLint::ManualOptExpect => if_expr_pattern_matches_tail_var(expr, arenas),
        ManualLint::ManualUnwrapOrDefault => if_expr_pattern_matches_tail_var(expr, arenas),
        _ => false,
    }
}

fn check_syntax_res_if(expr: &ExprIf, arenas: &Arenas, manual_lint: ManualLint) -> (r: bool)
    requires
        arenas.wf(),
        arenas.fits(Expr::If(*expr)),
    ensures
        r == res_if_ok(*arenas, *expr, manual_lint),
{
    let tail_expr = match if_tail_exec(expr, arenas) {
        Some(t) => t,
        None => {
            return false;
        },
    };
    match manual_lint {
        ManualLint::ManualIsOk => is_expected_variant(&tail_expr, arenas, TRUE),
        ManualLint::ManualIsErr => is_expected_variant(&tail_expr, arenas, FALSE),
        ManualLint::ManualOk => if_expr_condition_and_block_match_enum_pattern(expr, arenas, SOME),
        ManualLint::ManualResExpect => if_expr_pattern_matches_tail_var(expr, arenas),
        _ => false,
    }
}

fn check_syntax_err_if(expr: &ExprIf, arenas: &Arenas, manual_lint: ManualLint) -> (r: bool)
    requires
        arenas.wf(),
        arenas.fits(Expr::If(*expr)),
    ensures
        r == err_if_ok(*arenas, *expr, manual_lint),
{
    match manual_lint {
        ManualLint::ManualErr => if_expr_condition_and_block_match_enum_pattern(expr, arenas, SOME),
        ManualLint::ManualExpectErr => if_expr_pattern_matches_tail_var(expr, arenas),
        _ => false,
    }
}

fn check_syntax_opt_else(expr: &ExprIf, arenas: &Arenas, manual_lint: ManualLint) -> (r: bool)
    requires
        arenas.wf(),
        arenas.fits(Expr::If(*expr)),
    ensures
        r == opt_else_ok(*arenas, *expr, manual_lint),
{
    let tail_expr_id = match else_tail_exec(expr, arenas) {
        Some(t) => t,
        None => {
            return false;
        },
    };
    let tail_expr = &arenas.exprs[tail_expr_id];
    match manual_lint {
        ManualLint::ManualOkOr => is_expected_variant(&tail_expr_id, arenas, ERR),
        ManualLint::ManualIsSome => is_expected_variant(&tail_expr_id, arenas, FALSE),
        ManualLint::ManualIsNone => is_expected_variant(&tail_expr_id, arenas, TRUE),
        ManualLint::ManualOptExpect => is_expected_function(tail_expr, PANIC_WITH_FELT252),
        ManualLint::ManualUnwrapOrDefault => {
            proof {
                assert(arenas.expr_wf(tail_expr_id as int));
            }
            check_is_default(tail_expr, arenas)
        },
        _ => false,
    }
}

fn check_syntax_res_else(expr: &ExprIf, arenas: &Arenas, manual_lint: ManualLint) -> (r: bool)
    requires
        arenas.wf(),
        arenas.fits(Expr::If(*expr)),
    ensures
        r == res_else_ok(*arenas, *expr, manual_lint),
{
    let tail_expr = match else_tail_exec(expr, arenas) {
        Some(t) => t,
        None => {
            return false;
        },
    };
    match manual_lint {
        ManualLint::ManualIsOk => is_expected_variant(&tail_expr, arenas, FALSE),
        ManualLint::ManualIsErr => is_expected_variant(&tail_expr, arenas, TRUE),
        ManualLint::ManualOk => is_expected_variant(&tail_expr, arenas, NONE),
        ManualLint::ManualResExpect => is_expected_function(&arenas.exprs[tail_expr], PANIC_WITH_FELT252),
        _ => false,
    }
}

fn check_syntax_err_else(expr: &ExprIf, arenas: &Arenas, manual_lint: ManualLint) -> (r: bool)
    requires
        arenas.wf(),
        arenas.fits(Expr::If(*expr)),
    ensures
        r == err_else_ok(*arenas, *expr, manual_lint),
{
    let tail_expr = match else_tail_exec(expr, arenas) {
        Some(t) => t,
        None => {
            return false;
        },
    };
    match manual_lint {
        ManualLint::ManualErr => is_expected_variant(&tail_expr, arenas, NONE),
        ManualLint::ManualExpectErr => is_expected_function(&arenas.exprs[tail_expr], PANIC_WITH_FELT252),
        _ => false,
    }
}

/// Whether an `if let` on an `Option` or a `Result` writes out the method of
/// `manual_lint` by hand, unless `lint_name` is allowed on an ancestor.
pub fn check_manual_if(expr: &ExprIf, arenas: &Arenas, manual_lint: ManualLint, lint_name: &str) -> (r:
    bool)
    requires
        arenas.wf(),
        arenas.fits(Expr::If(*expr)),
    ensures
        r == manual_if(*arenas, *expr, manual_lint, lint_name@),
{
    if is_allowed(&expr.node, lint_name) {
        return false;
    }
    if let Condition::Let(_, patterns) = &expr.condition {
        assert(0 <= patterns@[0] < arenas.patterns@.len());
        if let Pattern::EnumVariant(enum_pattern) = &arenas.patterns[patterns[0]] {
            let enum_name = enum_pattern.variant_path.as_str();
            if str_eq(enum_name, SOME) {
                let found_if = check_syntax_opt_if(expr, arenas, manual_lint);
                let found_else = check_syntax_opt_else(expr, arenas, manual_lint);
                return found_if && found_else;
            } else if str_eq(enum_name, OK) {
                let found_if = check_syntax_res_if(expr, arenas, manual_lint);
                let found_else = check_syntax_res_else(expr, arenas, manual_lint);
                return found_if && found_else;
            } else if str_eq(enum_name, ERR) {
                let found_if = check_syntax_err_if(expr, arenas, manual_lint);
                let found_else = check_syntax_err_else(expr, arenas, manual_lint);
                return found_if && found_else;
            } else {
                return false;
            }
        }
    }
    false
}

/// One warning with `message` at the `match` where it writes out the method of
/// `lint` by hand.
pub open spec fn manual_match_diags(
    arenas: Arenas,
    m: ExprMatch,
    lint: ManualLint,
    lint_name: Seq<char>,
    message: Seq<char>,
) -> Seq<DiagView> {
    if manual_match(arenas, m, lint, lint_name) {
        seq![diag(m.node.ptr.id, message, Severity::Warning)]
    } else {
        Seq::empty()
    }
}

/// One warning with `message` at the `if let` where it writes out the method of
/// `lint` by hand.
pub open spec fn manual_if_diags(
    arenas: Arenas,
    e: ExprIf,
    lint: ManualLint,
    lint_name: Seq<char>,
    message: Seq<char>,
) -> Seq<DiagView> {
    if manual_if(arenas, e, lint, lint_name) {
        seq![diag(e.node.ptr.id, message, Severity::Warning)]
    } else {
        Seq::empty()
    }
}

/// Reports the `match` with `message` where it writes out the method of `lint`.
pub(crate) fn report_manual(
    expr_match: &ExprMatch,
    arenas: &Arenas,
    manual_lint: ManualLint,
    lint_name: &str,
    message: &str,
    diagnostics: &mut Vec<PluginDiagnostic>,
)
    requires
        arenas.wf(),
        arenas.fits(Expr::Match(*expr_match)),
    ensures
        diag_views(final(diagnostics)@) == diag_views(old(diagnostics)@) + manual_match_diags(
            *arenas,
            *expr_match,
            manual_lint,
            lint_name@,
            message@,
        ),
{
    let ghost old_views = diag_views(diagnostics@);
    if check_manual(expr_match, arenas, manual_lint, lint_name) {
        push_diagnostic(diagnostics, expr_match.node.ptr.id, message, Severity::Warning);
        assert(diag_views(diagnostics@) =~= old_views + seq![
            diag(expr_match.node.ptr.id, message@, Severity::Warning),
        ]);
    } else {
    }
}

/// Reports the `if let` with `message` where it writes out the method of `lint`.
pub(crate) fn report_manual_if(
    expr_if: &ExprIf,
    arenas: &Arenas,
    manual_lint: ManualLint,
    lint_name: &str,
    message: &str,
    diagnostics: &mut Vec<PluginDiagnostic>,
)
    requires
        arenas.wf(),
        arenas.fits(Expr::If(*expr_if)),
    ensures
        diag_views(final(diagnostics)@) == diag_views(old(diagnostics)@) + manual_if_diags(
            *arenas,
            *expr_if,
            manual_lint,
            lint_name@,
            message@,
        ),
{
    let ghost old_views = diag_views(diagnostics@);
    if check_manual_if(expr_if, arenas, manual_lint, lint_name) {
        push_diagnostic(diagnostics, expr_if.node.ptr.id, message, Severity::Warning);
        assert(diag_views(diagnostics@) =~= old_views + seq![
            diag(expr_if.node.ptr.id, message@, Severity::Warning),
        ]);
    } else {
    }
}

} // verus!
